use spec_forge::generate::build_spec_batches;
use spec_forge::planner::{build_batches, estimate_story_tokens};
use spec_forge::specification::{EdgeCase, FunctionalRequirement, RequirementCategory,
    Specification, UserScenario, VerificationMethod};
use spec_forge::story::{Priority, UserStory};

fn make_story(title: String) -> UserStory {
    UserStory {
        id: 7,
        external_id: None,
        title,
        actor: String::new(),
        action: String::new(),
        benefit: String::new(),
        priority: None,
        acceptance_criteria: Vec::new(),
        raw_text: String::new(),
        tags: Vec::new(),
        stakeholder: None,
    }
}

fn make_fr(id: &str, statement: &str, priority: Priority) -> FunctionalRequirement {
    FunctionalRequirement {
        id: id.to_string(),
        statement: statement.to_string(),
        priority,
        category: RequirementCategory::Functional,
        testable: true,
        rationale: None,
        source: None,
        verification_method: VerificationMethod::Test,
        risk_level: None,
        parent_requirement: None,
        allocated_to: vec![],
        quality_characteristic: None,
    }
}

fn make_us(id: &str, description_len: usize) -> UserScenario {
    UserScenario {
        id: id.to_string(),
        title: format!("Scenario {}", id),
        priority: Priority::P2,
        description: "d".repeat(description_len),
        why_priority: String::new(),
        independent_test: String::new(),
        acceptance_scenarios: vec![],
        source_story_id: 11,
    }
}

fn make_edge(description: &str, related: Option<&str>) -> EdgeCase {
    EdgeCase {
        description: description.to_string(),
        related_scenario: related.map(String::from),
        severity: Priority::P2,
    }
}

#[test]
fn test_build_batches_empty() {
    let stories: Vec<UserStory> = vec![];
    assert!(build_batches(&stories, 1000).is_empty());
}

#[test]
fn test_build_batches_single_exceeds_budget() {
    // one story of about 1000 tokens, budget 100: still one singleton batch
    let story = make_story("x".repeat(4000));
    let batches = build_batches(&vec![story], 100);
    assert_eq!(batches.len(), 1);
    assert_eq!(batches[0], vec![0]);
}

#[test]
fn test_build_batches_exact_boundary() {
    // two stories of 200 tokens each, budget 400: a single batch
    let s1 = make_story("a".repeat(800));
    let s2 = make_story("b".repeat(800));
    let batches = build_batches(&vec![s1, s2], 400);
    assert_eq!(batches.len(), 1);
    assert_eq!(batches[0], vec![0, 1]);
}

#[test]
fn test_build_batches_multiple() {
    // four stories of about 200 tokens, budget 300: several batches, all
    // indices kept in order
    let stories: Vec<UserStory> = (0..4).map(|_| make_story("x".repeat(800))).collect();
    let batches = build_batches(&stories, 300);
    assert!(batches.len() >= 2, "expected 2+ batches, got {}", batches.len());
    let all_indices: Vec<usize> = batches.iter().flatten().copied().collect();
    assert_eq!(all_indices, vec![0, 1, 2, 3]);
}

#[test]
fn test_estimate_story_tokens_counts_fields() {
    let mut story = make_story("abcd".to_string());
    story.actor = "efgh".to_string();
    story.acceptance_criteria = vec!["ijkl".to_string()];
    // 12 characters over the costed fields
    assert_eq!(estimate_story_tokens(&story), 3);
}

#[test]
fn test_batches_single_batch() {
    let mut spec = Specification::new("Test".to_string());
    spec.user_scenarios.push(make_us("US-001", 100));
    spec.functional_requirements.push(make_fr("FR-001", "DOIT X", Priority::P1));
    let batches = build_spec_batches(&spec, 10000);
    assert_eq!(batches.len(), 1);
}

#[test]
fn test_batches_fr_in_all() {
    // two scenarios long enough to force two batches; the requirements must
    // still be in every batch
    let mut spec = Specification::new("Test".to_string());
    spec.functional_requirements.push(make_fr("FR-001", "DOIT A", Priority::P1));
    spec.functional_requirements.push(make_fr("FR-002", "DOIT B", Priority::P2));
    spec.user_scenarios.push(make_us("US-001", 2000));
    spec.user_scenarios.push(make_us("US-002", 2000));
    let batches = build_spec_batches(&spec, 600);
    assert!(batches.len() >= 2, "expected 2+ batches, got {}", batches.len());
    for (i, batch) in batches.iter().enumerate() {
        assert_eq!(batch.functional_requirements.len(), 2, "batch {} must hold both FRs", i);
    }
}

#[test]
fn test_batches_unrelated_edges_in_all() {
    let mut spec = Specification::new("Test".to_string());
    spec.user_scenarios.push(make_us("US-001", 2000));
    spec.user_scenarios.push(make_us("US-002", 2000));
    spec.edge_cases.push(make_edge("Cas generique", None));
    spec.edge_cases.push(make_edge("Cas lie a US-001", Some("US-001")));
    let batches = build_spec_batches(&spec, 600);
    assert!(batches.len() >= 2);
    for (i, batch) in batches.iter().enumerate() {
        assert!(
            batch.edge_cases.iter().any(|ec| ec.description == "Cas generique"),
            "batch {} must carry the untied case",
            i
        );
    }
}

#[test]
fn test_batches_related_edges_correct_batch() {
    let mut spec = Specification::new("Test".to_string());
    spec.user_scenarios.push(make_us("US-001", 2000));
    spec.user_scenarios.push(make_us("US-002", 2000));
    spec.edge_cases.push(make_edge("Cas lie a US-002", Some("US-002")));
    let batches = build_spec_batches(&spec, 600);
    assert!(batches.len() >= 2);
    let first_has_it = batches[0].edge_cases.iter().any(|ec| ec.description == "Cas lie a US-002");
    let last_has_it = batches
        .last()
        .unwrap()
        .edge_cases
        .iter()
        .any(|ec| ec.description == "Cas lie a US-002");
    assert!(!first_has_it, "the first batch must not carry the case tied to US-002");
    assert!(last_has_it, "the last batch must carry the case tied to US-002");
}

#[test]
fn test_batches_fr_base_cost() {
    // ten long requirements make a base cost that forces an earlier split
    let mut spec = Specification::new("Test".to_string());
    for i in 0..10 {
        spec.functional_requirements.push(make_fr(
            &format!("FR-{:03}", i + 1),
            &"x".repeat(100),
            Priority::P1,
        ));
    }
    spec.user_scenarios.push(make_us("US-001", 400));
    spec.user_scenarios.push(make_us("US-002", 400));
    let batches = build_spec_batches(&spec, 350);
    assert_eq!(batches.len(), 2, "the base cost must force the split into 2 batches");
}

#[test]
fn test_planner_base_cost_two_by_two() {
    // the shared base cost is charged to every batch: four equal scenarios
    // split into two batches of two under this budget
    let mut spec = Specification::new("Test".to_string());
    // base cost 100 tokens: id 6 chars + statement 394 chars
    spec.functional_requirements.push(make_fr("FR-001", &"s".repeat(394), Priority::P1));
    // each scenario costs 1000 tokens: title 12 chars + description 3988
    for i in 0..4 {
        let mut us = make_us(&format!("US-{:03}", i + 1), 3988);
        us.title = "t".repeat(12 - us.id.len());
        spec.user_scenarios.push(us);
    }
    let batches = build_spec_batches(&spec, 2200);
    assert_eq!(batches.len(), 2);
    assert_eq!(batches[0].user_scenarios.len(), 2);
    assert_eq!(batches[1].user_scenarios.len(), 2);
    assert_eq!(batches[0].user_scenarios[0].id, "US-001");
    assert_eq!(batches[0].user_scenarios[1].id, "US-002");
    assert_eq!(batches[1].user_scenarios[0].id, "US-003");
    assert_eq!(batches[1].user_scenarios[1].id, "US-004");
}

#[test]
fn test_spec_batches_keep_every_scenario_once() {
    let mut spec = Specification::new("Test".to_string());
    for i in 0..5 {
        spec.user_scenarios.push(make_us(&format!("US-{:03}", i + 1), 1200));
    }
    let batches = build_spec_batches(&spec, 500);
    let ids: Vec<String> = batches
        .iter()
        .flat_map(|b| b.user_scenarios.iter().map(|us| us.id.clone()))
        .collect();
    assert_eq!(ids, vec!["US-001", "US-002", "US-003", "US-004", "US-005"]);
}
