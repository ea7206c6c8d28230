use spec_forge::specification::{AcceptanceScenario, EdgeCase, FunctionalRequirement,
    RequirementCategory, Specification, SuccessCriterion, UserScenario, VerificationMethod};
use spec_forge::story::Priority;
use spec_forge::test_case::{Feature, ScenarioCounts, TestCoverage, TestLevel, TestSuite};
use spec_forge::wellformed::{check_requirement_wellformedness, check_traceability,
    contains_ambiguous_word, contains_word, validate_specification, WellFormednessCriterion};

fn make_fr(id: &str, statement: &str, priority: Priority) -> FunctionalRequirement {
    FunctionalRequirement {
        id: id.to_string(),
        statement: statement.to_string(),
        priority,
        category: RequirementCategory::Functional,
        testable: true,
        rationale: None,
        source: None,
        verification_method: VerificationMethod::default(),
        risk_level: None,
        parent_requirement: None,
        allocated_to: Vec::new(),
        quality_characteristic: None,
    }
}

fn make_complete_spec() -> Specification {
    let mut spec = Specification::new("Test".to_string());
    spec.user_scenarios.push(UserScenario {
        id: "US-001".to_string(),
        title: "Test".to_string(),
        priority: Priority::P1,
        description: "Test desc".to_string(),
        why_priority: "Critical".to_string(),
        independent_test: "Can be tested".to_string(),
        acceptance_scenarios: vec![AcceptanceScenario {
            given: "state".to_string(),
            when: "action".to_string(),
            then_: "result".to_string(),
        }],
        source_story_id: 17,
    });
    spec.functional_requirements.push(make_fr("FR-001", "System MUST do X", Priority::P1));
    spec.success_criteria.push(SuccessCriterion {
        id: "SC-001".to_string(),
        description: "Success".to_string(),
        measurable_metric: "100%".to_string(),
    });
    spec.edge_cases.push(EdgeCase {
        description: "Edge".to_string(),
        related_scenario: Some("US-001".to_string()),
        severity: Priority::P2,
    });
    spec
}

#[test]
fn test_wellformedness_normative() {
    let fr = make_fr("FR-001", "The system does something", Priority::P1);
    let ids = vec!["FR-001".to_string()];
    let warnings = check_requirement_wellformedness(&fr, &ids);
    assert!(warnings.iter().any(|w| w.criterion == WellFormednessCriterion::Correct));
}

#[test]
fn test_wellformedness_ambiguous() {
    let fr = make_fr("FR-001", "System MUST handle approximately 100 requests", Priority::P1);
    let ids = vec!["FR-001".to_string()];
    let warnings = check_requirement_wellformedness(&fr, &ids);
    assert!(warnings.iter().any(|w| w.criterion == WellFormednessCriterion::Unambiguous));
}

#[test]
fn test_wellformedness_clean() {
    let fr = make_fr("FR-001", "Le systeme DOIT traiter les requetes en 2 secondes", Priority::P1);
    let ids = vec!["FR-001".to_string()];
    let warnings = check_requirement_wellformedness(&fr, &ids);
    assert!(warnings
        .iter()
        .all(|w| w.criterion != WellFormednessCriterion::Correct
            && w.criterion != WellFormednessCriterion::Unambiguous));
}

#[test]
fn test_wellformedness_compound_statement() {
    let fr = make_fr(
        "FR-001",
        "The system MUST log and the system MUST alert",
        Priority::P2,
    );
    let ids = vec!["FR-001".to_string()];
    let warnings = check_requirement_wellformedness(&fr, &ids);
    assert!(warnings.iter().any(|w| w.criterion == WellFormednessCriterion::Singular));
}

#[test]
fn test_wellformedness_missing_parent() {
    let mut fr = make_fr("FR-002", "System MUST do Y", Priority::P2);
    fr.parent_requirement = Some("FR-999".to_string());
    let ids = vec!["FR-001".to_string(), "FR-002".to_string()];
    let warnings = check_requirement_wellformedness(&fr, &ids);
    assert!(warnings.iter().any(|w| w.criterion == WellFormednessCriterion::Traceable));
}

#[test]
fn test_wellformedness_bad_id_format() {
    let fr = make_fr("REQ-7", "System MUST do Z", Priority::P3);
    let ids = vec!["REQ-7".to_string()];
    let warnings = check_requirement_wellformedness(&fr, &ids);
    assert!(warnings.iter().any(|w| w.criterion == WellFormednessCriterion::Conforming));
}

#[test]
fn test_contains_word_boundaries() {
    assert!(contains_word("there is some text", "some"));
    assert!(!contains_word("something else", "some"));
    assert!(contains_word("do as appropriate here", "as appropriate"));
    assert!(contains_ambiguous_word("environ 100", "environ"));
    assert!(!contains_ambiguous_word("environnement", "environ"));
}

#[test]
fn test_validate_complete_spec() {
    let spec = make_complete_spec();
    let validation = validate_specification(&spec);
    assert!(validation.completeness_score > 90);
    assert!(validation.testability_score > 90);
}

#[test]
fn test_validate_empty_spec() {
    let spec = Specification::new("Empty".to_string());
    let validation = validate_specification(&spec);
    assert!(validation.completeness_score < 50);
}

#[test]
fn test_iso_checks_in_validate_specification() {
    let mut spec = make_complete_spec();
    // add a requirement with an ambiguous word
    spec.functional_requirements.push(make_fr(
        "FR-002",
        "System should handle some requests",
        Priority::P2,
    ));
    let validation = validate_specification(&spec);
    let ambiguity_check = validation
        .checklist_items
        .iter()
        .find(|c| c.description.contains("ambigu"));
    assert!(ambiguity_check.is_some());
    assert!(!ambiguity_check.unwrap().passed);
}

#[test]
fn test_validate_checklist_has_twelve_items() {
    let spec = make_complete_spec();
    let validation = validate_specification(&spec);
    assert_eq!(validation.checklist_items.len(), 12);
}

#[test]
fn test_traceability_check() {
    let mut spec = Specification::new("Test".to_string());
    spec.functional_requirements.push(make_fr("FR-001", "Test", Priority::P1));
    spec.functional_requirements.push(make_fr("FR-002", "Test2", Priority::P2));

    let suite = TestSuite {
        features: vec![Feature {
            id: 3,
            name: "Test".to_string(),
            description: String::new(),
            tags: vec![],
            background: None,
            scenarios: vec![],
            source_scenario_ids: vec![],
            covered_requirements: vec!["FR-001".to_string()],
            test_level: TestLevel::Acceptance,
        }],
        source_spec_id: 4,
        total_scenarios: 0,
        coverage: TestCoverage {
            requirements_covered: vec![],
            requirements_total: 0,
            coverage_percentage: 0,
            scenarios_by_type: ScenarioCounts::default(),
        },
    };

    let gaps = check_traceability(&spec, &suite);
    assert_eq!(gaps, vec!["FR-002"]);
}
