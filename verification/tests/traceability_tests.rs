use spec_forge::specification::{ComplianceProfile, FunctionalRequirement, RequirementCategory,
    RiskLevel, Specification, VerificationMethod};
use spec_forge::story::Priority;
use spec_forge::test_case::{CoverageTechnique, Feature, Scenario, ScenarioCounts, ScenarioType,
    TestCoverage, TestLevel, TestSuite};
use spec_forge::traceability::{build_traceability_matrix, determine_status, TraceabilityStatus};

fn make_fr(id: &str, priority: Priority) -> FunctionalRequirement {
    FunctionalRequirement {
        id: id.to_string(),
        statement: format!("System MUST do {}", id),
        priority,
        category: RequirementCategory::Functional,
        testable: true,
        rationale: None,
        source: None,
        verification_method: VerificationMethod::Test,
        risk_level: Some(RiskLevel::High),
        parent_requirement: None,
        allocated_to: Vec::new(),
        quality_characteristic: None,
    }
}

fn make_scenario_with_verif(name: &str, verifies: Vec<String>) -> Scenario {
    Scenario {
        name: name.to_string(),
        tags: vec![],
        scenario_type: ScenarioType::HappyPath,
        steps: vec![],
        examples: None,
        test_data_suggestions: vec![],
        verification_of: verifies,
        coverage_technique: Some(CoverageTechnique::EquivalencePartitioning),
    }
}

fn make_suite(features: Vec<Feature>, total: usize) -> TestSuite {
    TestSuite {
        features,
        source_spec_id: 23,
        total_scenarios: total,
        coverage: TestCoverage {
            requirements_covered: vec![],
            requirements_total: 0,
            coverage_percentage: 0,
            scenarios_by_type: ScenarioCounts::default(),
        },
    }
}

#[test]
fn test_build_matrix_full_coverage() {
    let mut spec = Specification::new("Test".to_string());
    spec.functional_requirements.push(make_fr("FR-001", Priority::P1));

    let mut feature = Feature::new("Test".to_string(), String::new());
    feature.covered_requirements = vec!["FR-001".to_string()];
    feature.scenarios.push(make_scenario_with_verif("Happy", vec!["FR-001".to_string()]));
    feature.scenarios.push(make_scenario_with_verif("Error", vec!["FR-001".to_string()]));

    let matrix = build_traceability_matrix(&spec, &make_suite(vec![feature], 2));
    assert_eq!(matrix.entries.len(), 1);
    assert_eq!(matrix.entries[0].status, TraceabilityStatus::FullyCovered);
    assert_eq!(matrix.summary.covered, 1);
    assert_eq!(matrix.summary.not_covered, 0);
    assert!(matrix.summary.orphan_tests.is_empty());
}

#[test]
fn test_build_matrix_with_gap() {
    let mut spec = Specification::new("Test".to_string());
    spec.functional_requirements.push(make_fr("FR-001", Priority::P1));
    spec.functional_requirements.push(make_fr("FR-002", Priority::P2));

    let mut feature = Feature::new("Test".to_string(), String::new());
    feature.covered_requirements = vec!["FR-001".to_string()];
    feature.scenarios.push(make_scenario_with_verif("S1", vec!["FR-001".to_string()]));
    feature.scenarios.push(make_scenario_with_verif("S2", vec!["FR-001".to_string()]));

    let matrix = build_traceability_matrix(&spec, &make_suite(vec![feature], 2));
    assert_eq!(matrix.summary.covered, 1);
    assert_eq!(matrix.summary.not_covered, 1);
    assert_eq!(matrix.summary.forward_coverage_pct, 50);
}

#[test]
fn test_build_matrix_analysis_verification() {
    let mut spec = Specification::new("Test".to_string());
    let mut fr = make_fr("FR-001", Priority::P1);
    fr.verification_method = VerificationMethod::Analysis;
    spec.functional_requirements.push(fr);

    let matrix = build_traceability_matrix(&spec, &make_suite(vec![], 0));
    assert_eq!(matrix.entries[0].status, TraceabilityStatus::VerifiedByAnalysis);
    assert_eq!(matrix.summary.verified_other, 1);
}

#[test]
fn test_orphan_detection() {
    let mut spec = Specification::new("Test".to_string());
    spec.functional_requirements.push(make_fr("FR-001", Priority::P1));

    let mut feature = Feature::new("Test".to_string(), String::new());
    feature.scenarios.push(make_scenario_with_verif("Linked", vec!["FR-001".to_string()]));
    feature.scenarios.push(Scenario {
        name: "Orphan".to_string(),
        tags: vec![],
        scenario_type: ScenarioType::HappyPath,
        steps: vec![],
        examples: None,
        test_data_suggestions: vec![],
        verification_of: vec![],
        coverage_technique: None,
    });

    let matrix = build_traceability_matrix(&spec, &make_suite(vec![feature], 2));
    assert_eq!(matrix.summary.orphan_tests, vec!["Orphan"]);
}

#[test]
fn test_compliance_notes_generated() {
    let mut spec = Specification::new("Test".to_string());
    spec.compliance_profile = Some(ComplianceProfile::General);
    spec.functional_requirements.push(make_fr("FR-001", Priority::P1));

    let matrix = build_traceability_matrix(&spec, &make_suite(vec![], 0));
    assert!(matrix.compliance_notes.len() >= 2);
    assert!(matrix.compliance_notes.iter().any(|n| n.standard.contains("29148")));
}

#[test]
fn test_top_priority_single_artifact_is_partial() {
    // a top-priority requirement linked by exactly one artifact is only
    // partially covered, not fully covered
    let mut spec = Specification::new("Test".to_string());
    spec.functional_requirements.push(make_fr("FR-001", Priority::P1));

    let mut feature = Feature::new("Test".to_string(), String::new());
    feature.scenarios.push(make_scenario_with_verif("Seul", vec!["FR-001".to_string()]));

    let matrix = build_traceability_matrix(&spec, &make_suite(vec![feature], 1));
    assert_eq!(matrix.entries[0].status, TraceabilityStatus::PartiallyCovered);
    assert_ne!(matrix.entries[0].status, TraceabilityStatus::FullyCovered);
}

#[test]
fn test_determine_status_rules() {
    let fr_p1 = make_fr("FR-001", Priority::P1);
    assert_eq!(
        determine_status(&fr_p1, &vec!["a".to_string()]),
        TraceabilityStatus::PartiallyCovered
    );
    assert_eq!(
        determine_status(&fr_p1, &vec!["a".to_string(), "b".to_string()]),
        TraceabilityStatus::FullyCovered
    );
    assert_eq!(determine_status(&fr_p1, &vec![]), TraceabilityStatus::NotCovered);
    let fr_p2 = make_fr("FR-002", Priority::P2);
    assert_eq!(
        determine_status(&fr_p2, &vec!["a".to_string()]),
        TraceabilityStatus::FullyCovered
    );
    let mut fr_demo = make_fr("FR-003", Priority::P2);
    fr_demo.verification_method = VerificationMethod::Demonstration;
    assert_eq!(determine_status(&fr_demo, &vec![]), TraceabilityStatus::VerifiedByDemo);
}

#[test]
fn test_matrix_rebuild_is_identical() {
    // rebuilding the matrix on the same artifact set yields identical
    // coverage counts
    let mut spec = Specification::new("Test".to_string());
    spec.compliance_profile = Some(ComplianceProfile::General);
    spec.functional_requirements.push(make_fr("FR-001", Priority::P1));
    spec.functional_requirements.push(make_fr("FR-002", Priority::P2));

    let mut feature = Feature::new("Test".to_string(), String::new());
    feature.scenarios.push(make_scenario_with_verif("S1", vec!["FR-001".to_string()]));
    let suite = make_suite(vec![feature], 1);

    let m1 = build_traceability_matrix(&spec, &suite);
    let m2 = build_traceability_matrix(&spec, &suite);
    assert_eq!(m1.summary.total_requirements, m2.summary.total_requirements);
    assert_eq!(m1.summary.covered, m2.summary.covered);
    assert_eq!(m1.summary.partially_covered, m2.summary.partially_covered);
    assert_eq!(m1.summary.not_covered, m2.summary.not_covered);
    assert_eq!(m1.summary.verified_other, m2.summary.verified_other);
    assert_eq!(m1.summary.forward_coverage_pct, m2.summary.forward_coverage_pct);
    assert_eq!(m1.summary.orphan_tests, m2.summary.orphan_tests);
    assert_eq!(m1.entries.len(), m2.entries.len());
}

#[test]
fn test_tag_fallback_linkage() {
    // a scenario with no verification link still covers a requirement via a
    // matching tag
    let mut spec = Specification::new("Test".to_string());
    spec.functional_requirements.push(make_fr("FR-001", Priority::P2));

    let mut feature = Feature::new("Test".to_string(), String::new());
    feature.scenarios.push(Scenario {
        name: "Tagged".to_string(),
        tags: vec!["@FR-001".to_string()],
        scenario_type: ScenarioType::HappyPath,
        steps: vec![],
        examples: None,
        test_data_suggestions: vec![],
        verification_of: vec![],
        coverage_technique: None,
    });

    let matrix = build_traceability_matrix(&spec, &make_suite(vec![feature], 1));
    assert_eq!(matrix.entries[0].status, TraceabilityStatus::FullyCovered);
    assert!(matrix.summary.orphan_tests.is_empty());
}

#[test]
fn test_status_labels() {
    assert_eq!(TraceabilityStatus::FullyCovered.label(), "Couvert");
    assert_eq!(TraceabilityStatus::PartiallyCovered.label(), "Partiel");
    assert_eq!(TraceabilityStatus::NotCovered.label(), "GAP");
    assert_eq!(TraceabilityStatus::VerifiedByAnalysis.label(), "Analyse");
}
