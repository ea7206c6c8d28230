use spec_forge::merge::{merge_specifications, merge_test_suites};
use spec_forge::specification::{EdgeCase, FunctionalRequirement, RequirementCategory,
    Specification, UserScenario, VerificationMethod};
use spec_forge::story::Priority;
use spec_forge::test_case::{Feature, ScenarioCounts, TestCoverage, TestSuite};

fn make_fr(id: &str, statement: &str, priority: Priority) -> FunctionalRequirement {
    FunctionalRequirement {
        id: id.to_string(),
        statement: statement.to_string(),
        priority,
        category: RequirementCategory::Functional,
        testable: true,
        rationale: None,
        source: None,
        verification_method: VerificationMethod::Test,
        risk_level: None,
        parent_requirement: None,
        allocated_to: vec![],
        quality_characteristic: None,
    }
}

fn make_us(id: &str) -> UserScenario {
    UserScenario {
        id: id.to_string(),
        title: format!("Scenario {}", id),
        priority: Priority::P2,
        description: "Description".to_string(),
        why_priority: String::new(),
        independent_test: String::new(),
        acceptance_scenarios: vec![],
        source_story_id: 5,
    }
}

fn empty_coverage() -> TestCoverage {
    TestCoverage {
        requirements_covered: vec![],
        requirements_total: 0,
        coverage_percentage: 0,
        scenarios_by_type: ScenarioCounts::default(),
    }
}

#[test]
fn test_merge_specs_empty() {
    let merged = merge_specifications(vec![]);
    assert_eq!(merged.functional_requirements.len(), 0);
    assert!(merged.title.contains("Empty"));
}

#[test]
fn test_merge_specs_single() {
    let mut spec = Specification::new("Test".to_string());
    spec.functional_requirements.push(make_fr("FR-001", "Le systeme DOIT faire X", Priority::P1));
    let merged = merge_specifications(vec![spec]);
    assert_eq!(merged.functional_requirements.len(), 1);
    assert_eq!(merged.functional_requirements[0].id, "FR-001");
}

#[test]
fn test_merge_specs_id_renumbering() {
    let mut spec1 = Specification::new("Spec 1".to_string());
    spec1.functional_requirements.push(make_fr("FR-001", "DOIT A", Priority::P1));
    spec1.functional_requirements.push(make_fr("FR-002", "DOIT B", Priority::P2));

    let mut spec2 = Specification::new("Spec 2".to_string());
    spec2.functional_requirements.push(make_fr("FR-001", "DOIT C", Priority::P1));
    spec2.functional_requirements.push(make_fr("FR-002", "DOIT D", Priority::P2));

    let merged = merge_specifications(vec![spec1, spec2]);
    assert_eq!(merged.functional_requirements.len(), 4);
    let ids: Vec<&str> = merged.functional_requirements.iter().map(|f| f.id.as_str()).collect();
    assert_eq!(ids, vec!["FR-001", "FR-002", "FR-003", "FR-004"]);
}

#[test]
fn test_merge_specs_parent_cross_refs() {
    // batch 1: one root requirement
    let mut spec1 = Specification::new("Spec 1".to_string());
    spec1.functional_requirements.push(make_fr("FR-001", "DOIT racine", Priority::P1));

    // batch 2: FR-001 carries a forward link to batch 2's local FR-002
    let mut spec2 = Specification::new("Spec 2".to_string());
    let mut fr_a = make_fr("FR-001", "DOIT enfant A", Priority::P2);
    fr_a.parent_requirement = Some("FR-002".to_string());
    spec2.functional_requirements.push(fr_a);
    let fr_b = make_fr("FR-002", "DOIT enfant B", Priority::P2);
    spec2.functional_requirements.push(fr_b);

    let merged = merge_specifications(vec![spec1, spec2]);
    assert_eq!(merged.functional_requirements[0].id, "FR-001");
    assert_eq!(merged.functional_requirements[1].id, "FR-002");
    assert_eq!(merged.functional_requirements[2].id, "FR-003");
    // the old local "FR-002" must point at the new global "FR-003"
    assert_eq!(
        merged.functional_requirements[1].parent_requirement.as_deref(),
        Some("FR-003"),
        "the parent link must go through the global mapping"
    );
}

#[test]
fn test_merge_specs_edge_case_us_mapping() {
    let mut spec1 = Specification::new("Spec 1".to_string());
    spec1.user_scenarios.push(make_us("US-001"));

    let mut spec2 = Specification::new("Spec 2".to_string());
    spec2.user_scenarios.push(make_us("US-001"));
    spec2.edge_cases.push(EdgeCase {
        description: "Cas limite".to_string(),
        related_scenario: Some("US-001".to_string()),
        severity: Priority::P2,
    });

    let merged = merge_specifications(vec![spec1, spec2]);
    assert_eq!(merged.user_scenarios[1].id, "US-002");
    assert_eq!(
        merged.edge_cases[0].related_scenario.as_deref(),
        Some("US-002"),
        "the related-scenario link must be remapped"
    );
}

#[test]
fn test_merge_clears_dangling_links() {
    // a parent link naming an identifier that exists nowhere in the input
    // is cleared, so every remaining link resolves inside the merged set
    let mut spec1 = Specification::new("Spec 1".to_string());
    let mut fr = make_fr("FR-001", "DOIT A", Priority::P1);
    fr.parent_requirement = Some("FR-999".to_string());
    spec1.functional_requirements.push(fr);
    let mut spec2 = Specification::new("Spec 2".to_string());
    spec2.functional_requirements.push(make_fr("FR-001", "DOIT B", Priority::P2));

    let merged = merge_specifications(vec![spec1, spec2]);
    assert_eq!(merged.functional_requirements[0].parent_requirement, None);
}

#[test]
fn test_merge_ids_dense_and_unique() {
    let mut specs = Vec::new();
    for b in 0..3 {
        let mut s = Specification::new(format!("Spec {}", b));
        for k in 0..4 {
            s.functional_requirements.push(make_fr(
                &format!("FR-{:03}", k + 1),
                "DOIT X",
                Priority::P2,
            ));
            s.user_scenarios.push(make_us(&format!("US-{:03}", k + 1)));
        }
        specs.push(s);
    }
    let merged = merge_specifications(specs);
    let mut expected_fr: Vec<String> = Vec::new();
    let mut expected_us: Vec<String> = Vec::new();
    for n in 1..=12 {
        expected_fr.push(format!("FR-{:03}", n));
        expected_us.push(format!("US-{:03}", n));
    }
    let fr_ids: Vec<String> =
        merged.functional_requirements.iter().map(|f| f.id.clone()).collect();
    let us_ids: Vec<String> = merged.user_scenarios.iter().map(|u| u.id.clone()).collect();
    assert_eq!(fr_ids, expected_fr);
    assert_eq!(us_ids, expected_us);
}

#[test]
fn test_merge_suites_two() {
    let suite1 = TestSuite {
        features: vec![Feature::new("Feature A".to_string(), "Desc A".to_string())],
        source_spec_id: 41,
        total_scenarios: 3,
        coverage: empty_coverage(),
    };
    let suite2 = TestSuite {
        features: vec![Feature::new("Feature B".to_string(), "Desc B".to_string())],
        source_spec_id: 42,
        total_scenarios: 2,
        coverage: empty_coverage(),
    };
    let merged = merge_test_suites(vec![suite1, suite2]);
    assert_eq!(merged.features.len(), 2);
    assert_eq!(merged.total_scenarios, 5);
}

#[test]
fn test_merge_suites_empty() {
    let merged = merge_test_suites(vec![]);
    assert_eq!(merged.features.len(), 0);
    assert_eq!(merged.total_scenarios, 0);
}
