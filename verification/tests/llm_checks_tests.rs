use spec_forge::llm_checks::{validate_llm_spec_output, validate_llm_test_output};
use spec_forge::metrics::{check_bidirectional_traceability, compute_quality_metrics};
use spec_forge::specification::{AcceptanceScenario, FunctionalRequirement, RequirementCategory,
    Specification, UserScenario, VerificationMethod};
use spec_forge::story::Priority;
use spec_forge::test_case::{Feature, Scenario, ScenarioCounts, ScenarioType, TestCoverage,
    TestSuite};

fn make_fr(id: &str, statement: &str, priority: Priority) -> FunctionalRequirement {
    FunctionalRequirement {
        id: id.to_string(),
        statement: statement.to_string(),
        priority,
        category: RequirementCategory::Functional,
        testable: true,
        rationale: None,
        source: None,
        verification_method: VerificationMethod::Test,
        risk_level: None,
        parent_requirement: None,
        allocated_to: vec![],
        quality_characteristic: None,
    }
}

fn make_us(id: &str) -> UserScenario {
    UserScenario {
        id: id.to_string(),
        title: format!("Scenario {}", id),
        priority: Priority::P2,
        description: "Description".to_string(),
        why_priority: String::new(),
        independent_test: String::new(),
        acceptance_scenarios: vec![],
        source_story_id: 13,
    }
}

fn make_scenario(name: &str, verification_of: Vec<String>) -> Scenario {
    Scenario {
        name: name.to_string(),
        tags: vec![],
        scenario_type: ScenarioType::HappyPath,
        steps: vec![],
        examples: None,
        test_data_suggestions: vec![],
        verification_of,
        coverage_technique: None,
    }
}

fn make_suite(features: Vec<Feature>, spec: &Specification, total: usize) -> TestSuite {
    TestSuite {
        features,
        source_spec_id: spec.id,
        total_scenarios: total,
        coverage: TestCoverage {
            requirements_covered: vec![],
            requirements_total: 0,
            coverage_percentage: 0,
            scenarios_by_type: ScenarioCounts::default(),
        },
    }
}

#[test]
fn test_validate_duplicate_ids() {
    let mut spec = Specification::new("Test".to_string());
    spec.functional_requirements.push(make_fr("FR-001", "Le systeme DOIT A", Priority::P1));
    spec.functional_requirements.push(make_fr("FR-001", "Le systeme DOIT B", Priority::P2));
    let warnings = validate_llm_spec_output(&spec);
    assert!(warnings.iter().any(|w| w.rule == "ISO-29148-ID-UNIQUE"));
}

#[test]
fn test_validate_missing_normative() {
    let mut spec = Specification::new("Test".to_string());
    spec.functional_requirements.push(make_fr(
        "FR-001",
        "Le systeme fait quelque chose",
        Priority::P1,
    ));
    let warnings = validate_llm_spec_output(&spec);
    assert!(warnings.iter().any(|w| w.rule == "ISO-29148-NORMATIVE"));
}

#[test]
fn test_validate_ambiguous_word() {
    let mut spec = Specification::new("Test".to_string());
    spec.functional_requirements.push(make_fr(
        "FR-001",
        "Le systeme DOIT parfois fonctionner",
        Priority::P1,
    ));
    let warnings = validate_llm_spec_output(&spec);
    assert!(warnings.iter().any(|w| w.rule == "ISO-29148-UNAMBIGUOUS"));
}

#[test]
fn test_validate_invalid_id_format() {
    let mut spec = Specification::new("Test".to_string());
    spec.functional_requirements.push(make_fr(
        "REQ-001",
        "Le systeme DOIT fonctionner",
        Priority::P1,
    ));
    let warnings = validate_llm_spec_output(&spec);
    assert!(warnings.iter().any(|w| w.rule == "ISO-29148-CONFORMING"));
}

#[test]
fn test_validate_empty_statement() {
    let mut spec = Specification::new("Test".to_string());
    spec.functional_requirements.push(make_fr("FR-001", "   ", Priority::P1));
    let warnings = validate_llm_spec_output(&spec);
    assert!(warnings.iter().any(|w| w.rule == "ISO-29148-COMPLETE"));
}

#[test]
fn test_validate_p1_no_risk() {
    let mut spec = Specification::new("Test".to_string());
    spec.functional_requirements.push(make_fr(
        "FR-001",
        "Le systeme DOIT fonctionner",
        Priority::P1,
    ));
    let warnings = validate_llm_spec_output(&spec);
    assert!(warnings.iter().any(|w| w.rule == "ISO-29148-RISK"));
}

#[test]
fn test_validate_incomplete_acceptance() {
    let mut spec = Specification::new("Test".to_string());
    let mut us = make_us("US-001");
    us.acceptance_scenarios.push(AcceptanceScenario {
        given: "contexte".to_string(),
        when: String::new(),
        then_: "resultat".to_string(),
    });
    spec.user_scenarios.push(us);
    let warnings = validate_llm_spec_output(&spec);
    assert!(warnings.iter().any(|w| w.rule == "ISO-29148-TESTABLE"));
}

#[test]
fn test_validate_uncovered_fr() {
    let mut spec = Specification::new("Test".to_string());
    spec.functional_requirements.push(make_fr("FR-001", "DOIT A", Priority::P1));
    spec.functional_requirements.push(make_fr("FR-002", "DOIT B", Priority::P2));
    let mut feature = Feature::new("Test".to_string(), String::new());
    feature.covered_requirements = vec!["FR-001".to_string()];
    let suite = make_suite(vec![feature], &spec, 1);
    let warnings = validate_llm_test_output(&suite, &spec);
    assert!(warnings
        .iter()
        .any(|w| w.rule == "ISO-29119-COVERAGE" && w.element_id == "FR-002"));
}

#[test]
fn test_validate_p1_insufficient() {
    let mut spec = Specification::new("Test".to_string());
    spec.functional_requirements.push(make_fr("FR-001", "DOIT critique", Priority::P1));
    let mut feature = Feature::new("Test".to_string(), String::new());
    feature.covered_requirements = vec!["FR-001".to_string()];
    feature.scenarios.push(make_scenario("Seul scenario", vec!["FR-001".to_string()]));
    let suite = make_suite(vec![feature], &spec, 1);
    let warnings = validate_llm_test_output(&suite, &spec);
    assert!(warnings.iter().any(|w| w.rule == "ISO-29119-P1-DEPTH"));
}

#[test]
fn test_validate_orphan_scenario() {
    let spec = Specification::new("Test".to_string());
    let mut feature = Feature::new("Test".to_string(), String::new());
    feature.scenarios.push(make_scenario("Scenario orphelin", vec![]));
    let suite = make_suite(vec![feature], &spec, 1);
    let warnings = validate_llm_test_output(&suite, &spec);
    assert!(warnings.iter().any(|w| w.rule == "ISO-29119-TRACEABILITY"));
}

#[test]
fn test_validate_invalid_fr_ref() {
    let mut spec = Specification::new("Test".to_string());
    spec.functional_requirements.push(make_fr("FR-001", "DOIT A", Priority::P1));
    let mut feature = Feature::new("Test".to_string(), String::new());
    feature.scenarios.push(make_scenario("Ref invalide", vec!["FR-999".to_string()]));
    let suite = make_suite(vec![feature], &spec, 1);
    let warnings = validate_llm_test_output(&suite, &spec);
    assert!(warnings.iter().any(|w| w.rule == "ISO-29119-REF-VALID"));
}

#[test]
fn test_bidirectional_traceability_full_coverage() {
    let mut spec = Specification::new("Test".to_string());
    spec.functional_requirements.push(make_fr("FR-001", "MUST do X", Priority::P1));
    let mut feature = Feature::new("Test".to_string(), String::new());
    feature.covered_requirements = vec!["FR-001".to_string()];
    feature.scenarios.push(make_scenario("Test scenario", vec!["FR-001".to_string()]));
    let suite = make_suite(vec![feature], &spec, 1);

    let report = check_bidirectional_traceability(&spec, &suite);
    assert_eq!(report.forward_coverage_pct, 100);
    assert_eq!(report.backward_coverage_pct, 100);
    assert!(report.uncovered_requirements.is_empty());
    assert!(report.orphan_tests.is_empty());
}

#[test]
fn test_bidirectional_traceability_with_gaps() {
    let mut spec = Specification::new("Test".to_string());
    spec.functional_requirements.push(make_fr("FR-001", "MUST do X", Priority::P1));
    spec.functional_requirements.push(make_fr("FR-002", "MUST do Y", Priority::P2));
    let mut feature = Feature::new("Test".to_string(), String::new());
    feature.covered_requirements = vec!["FR-001".to_string()];
    feature.scenarios.push(make_scenario("Linked", vec!["FR-001".to_string()]));
    feature.scenarios.push(make_scenario("Orphan", vec![]));
    let suite = make_suite(vec![feature], &spec, 2);

    let report = check_bidirectional_traceability(&spec, &suite);
    assert_eq!(report.forward_coverage_pct, 50);
    assert_eq!(report.backward_coverage_pct, 50);
    assert_eq!(report.uncovered_requirements, vec!["FR-002"]);
    assert_eq!(report.orphan_tests, vec!["Orphan"]);
}

#[test]
fn test_bidirectional_coverage_by_priority() {
    let mut spec = Specification::new("Test".to_string());
    spec.functional_requirements.push(make_fr("FR-001", "MUST do X", Priority::P1));
    spec.functional_requirements.push(make_fr("FR-002", "MUST do Y", Priority::P2));
    let mut feature = Feature::new("Test".to_string(), String::new());
    feature.covered_requirements = vec!["FR-001".to_string()];
    let suite = make_suite(vec![feature], &spec, 0);

    let report = check_bidirectional_traceability(&spec, &suite);
    assert_eq!(
        report.coverage_by_priority,
        vec![("P1 (Must)".to_string(), 100), ("P2 (Should)".to_string(), 0)]
    );
}

#[test]
fn test_quality_metrics_complete() {
    let mut spec = Specification::new("Test".to_string());
    spec.functional_requirements.push(make_fr("FR-001", "MUST X", Priority::P1));
    let mut feature = Feature::new("Test".to_string(), String::new());
    feature.covered_requirements = vec!["FR-001".to_string()];
    feature.scenarios.push(make_scenario("S1", vec!["FR-001".to_string()]));
    feature.scenarios.push(make_scenario("S2", vec!["FR-001".to_string()]));
    let suite = make_suite(vec![feature], &spec, 2);

    let metrics = compute_quality_metrics(&spec, &suite);
    assert_eq!(metrics.functional_completeness, 1000);
    assert_eq!(metrics.risk_coverage, 1000);
    assert!(metrics.test_adequacy_ratio >= 2000);
    assert!(metrics.overall_score > 500);
}

#[test]
fn test_quality_metrics_empty_spec() {
    let spec = Specification::new("Vide".to_string());
    let suite = make_suite(vec![], &spec, 0);
    let metrics = compute_quality_metrics(&spec, &suite);
    assert_eq!(metrics.functional_completeness, 1000);
    assert_eq!(metrics.requirement_stability, 1000);
    assert_eq!(metrics.test_adequacy_ratio, 0);
}
