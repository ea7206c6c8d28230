use spec_forge::executor::{FinishReason, LlmResponse, MockLlmAdapter, OutputDecoder};
use spec_forge::errors::RefinementError;
use spec_forge::generate::GenerateTestsService;
use spec_forge::llm_output::{AcceptanceInput, ClarificationInput, CriterionInput, EdgeInput,
    EntityInput, FeatureInput, GherkinScenarioInput, RefineOutput, RequirementInput, StepInput,
    TestOutput};
use spec_forge::refine::{build_refine_prompt, run_refine_queue, PromptTemplates, RefineService};
use spec_forge::specification::{FunctionalRequirement, RequirementCategory, Specification,
    VerificationMethod};
use spec_forge::story::{Language, Priority, UserStory, UserStorySet};
use spec_forge::generate::{collect_gaps, duplicate_range};

// ---------------------------------------------------------------------------
// Test doubles: fixed templates and JSON decoders
// ---------------------------------------------------------------------------

struct FixedTemplates;

impl PromptTemplates for FixedTemplates {
    fn refine_system(&self, _language: Language) -> Result<String, String> {
        Ok("System prompt".to_string())
    }

    fn generate_system(&self, _language: Language) -> Result<String, String> {
        Ok("System prompt generation".to_string())
    }
}

fn js(v: &serde_json::Value, key: &str) -> String {
    v.get(key).and_then(|x| x.as_str()).unwrap_or("").to_string()
}

fn jopt(v: &serde_json::Value, key: &str) -> Option<String> {
    v.get(key).and_then(|x| x.as_str()).map(|s| s.to_string())
}

fn jarr<'a>(v: &'a serde_json::Value, key: &str) -> Vec<&'a serde_json::Value> {
    v.get(key).and_then(|x| x.as_array()).map(|a| a.iter().collect()).unwrap_or_default()
}

fn jstrs(v: &serde_json::Value, key: &str) -> Vec<String> {
    jarr(v, key).iter().map(|x| x.as_str().unwrap_or("").to_string()).collect()
}

struct RefineJsonDecoder;

impl OutputDecoder<RefineOutput> for RefineJsonDecoder {
    fn decode(&self, text: &str) -> Result<RefineOutput, String> {
        let v: serde_json::Value = serde_json::from_str(text).map_err(|e| e.to_string())?;
        let user_scenarios = jarr(&v, "user_scenarios")
            .iter()
            .map(|u| scenario_input(u))
            .collect();
        let functional_requirements = jarr(&v, "functional_requirements")
            .iter()
            .map(|r| RequirementInput {
                id: js(r, "id"),
                statement: js(r, "statement"),
                priority: js(r, "priority"),
                category: if r.get("category").is_some() {
                    js(r, "category")
                } else {
                    "Functional".to_string()
                },
                testable: r.get("testable").and_then(|x| x.as_bool()).unwrap_or(true),
                rationale: jopt(r, "rationale"),
                source: jopt(r, "source"),
                verification_method: jopt(r, "verification_method"),
                risk_level: jopt(r, "risk_level"),
                parent_requirement: jopt(r, "parent_requirement"),
                allocated_to: jstrs(r, "allocated_to"),
                quality_characteristic: jopt(r, "quality_characteristic"),
            })
            .collect();
        let key_entities = jarr(&v, "key_entities")
            .iter()
            .map(|e| EntityInput {
                name: js(e, "name"),
                description: js(e, "description"),
                attributes: jstrs(e, "attributes"),
                relationships: jstrs(e, "relationships"),
            })
            .collect();
        let edge_cases = jarr(&v, "edge_cases")
            .iter()
            .map(|e| EdgeInput {
                description: js(e, "description"),
                related_scenario: jopt(e, "related_scenario"),
                severity: if e.get("severity").is_some() {
                    js(e, "severity")
                } else {
                    "P2".to_string()
                },
            })
            .collect();
        let success_criteria = jarr(&v, "success_criteria")
            .iter()
            .map(|c| CriterionInput {
                id: js(c, "id"),
                description: js(c, "description"),
                measurable_metric: js(c, "measurable_metric"),
            })
            .collect();
        let clarifications_needed = jarr(&v, "clarifications_needed")
            .iter()
            .map(|c| ClarificationInput {
                question: js(c, "question"),
                context: js(c, "context"),
                suggested_options: jstrs(c, "suggested_options"),
                impact: js(c, "impact"),
            })
            .collect();
        Ok(RefineOutput {
            user_scenarios,
            functional_requirements,
            key_entities,
            edge_cases,
            success_criteria,
            clarifications_needed,
        })
    }

    fn validate(&self, _value: &RefineOutput, _attempt: usize, _max: usize) -> Option<String> {
        None
    }
}

fn scenario_input(u: &serde_json::Value) -> spec_forge::llm_output::ScenarioInput {
    spec_forge::llm_output::ScenarioInput {
        id: js(u, "id"),
        title: js(u, "title"),
        priority: js(u, "priority"),
        description: js(u, "description"),
        why_priority: js(u, "why_priority"),
        independent_test: js(u, "independent_test"),
        acceptance_scenarios: jarr(u, "acceptance_scenarios")
            .iter()
            .map(|a| AcceptanceInput {
                given: js(a, "given"),
                when: js(a, "when"),
                then_: js(a, "then"),
            })
            .collect(),
    }
}

struct TestJsonDecoder;

impl OutputDecoder<TestOutput> for TestJsonDecoder {
    fn decode(&self, text: &str) -> Result<TestOutput, String> {
        let v: serde_json::Value = serde_json::from_str(text).map_err(|e| e.to_string())?;
        let features = jarr(&v, "features")
            .iter()
            .map(|f| FeatureInput {
                name: js(f, "name"),
                description: js(f, "description"),
                tags: jstrs(f, "tags"),
                background: None,
                scenarios: jarr(f, "scenarios")
                    .iter()
                    .map(|s| GherkinScenarioInput {
                        name: js(s, "name"),
                        tags: jstrs(s, "tags"),
                        scenario_type: if s.get("scenario_type").is_some() {
                            js(s, "scenario_type")
                        } else {
                            "HappyPath".to_string()
                        },
                        steps: jarr(s, "steps")
                            .iter()
                            .map(|st| StepInput {
                                keyword: js(st, "keyword"),
                                text: js(st, "text"),
                                doc_string: jopt(st, "doc_string"),
                                data_table: None,
                            })
                            .collect(),
                        examples: None,
                        test_data_suggestions: jstrs(s, "test_data_suggestions"),
                        verification_of: jstrs(s, "verification_of"),
                        coverage_technique: jopt(s, "coverage_technique"),
                    })
                    .collect(),
                source_scenario_ids: jstrs(f, "source_scenario_ids"),
                covered_requirements: jstrs(f, "covered_requirements"),
                test_level: jopt(f, "test_level"),
            })
            .collect();
        Ok(TestOutput { features })
    }

    fn validate(&self, _value: &TestOutput, _attempt: usize, _max: usize) -> Option<String> {
        None
    }
}

fn make_story(title: &str) -> UserStory {
    UserStory::new(
        title.to_string(),
        "acteur".to_string(),
        "faire une chose".to_string(),
        "gagner du temps".to_string(),
    )
}

fn stop(content: &str) -> LlmResponse {
    LlmResponse {
        content: content.to_string(),
        tokens_used: 10,
        finish_reason: FinishReason::Stop,
    }
}

fn truncated() -> LlmResponse {
    LlmResponse {
        content: "{}".to_string(),
        tokens_used: 100,
        finish_reason: FinishReason::Length,
    }
}

// ---------------------------------------------------------------------------
// Refinement
// ---------------------------------------------------------------------------

#[test]
fn test_refine_with_mock() {
    let payload = "{\"user_scenarios\": [{\"id\": \"US-001\", \"title\": \"Recherche ISBN\", \"priority\": \"P1\",\"description\": \"Recherche par ISBN\", \"why_priority\": \"Critique\",\"independent_test\": \"Saisir ISBN\",\"acceptance_scenarios\": [{\"given\": \"catalogue\", \"when\": \"saisie ISBN\", \"then\": \"resultat\"}]}],\"functional_requirements\": [{\"id\": \"FR-001\",\"statement\": \"Le systeme DOIT permettre la recherche par ISBN\",\"priority\": \"P1\", \"category\": \"Functional\", \"testable\": true}],\"key_entities\": [],\"edge_cases\": [{\"description\": \"ISBN invalide\", \"severity\": \"P2\"}],\"success_criteria\": [{\"id\": \"SC-001\", \"description\": \"Rapide\", \"measurable_metric\": \"< 2s\"}],\"clarifications_needed\": []}";
    let mut adapter = MockLlmAdapter::new(vec![payload.to_string()]);
    let service = RefineService::new(1);
    let story_set = UserStorySet {
        stories: vec![UserStory::new(
            "Recherche ISBN".to_string(),
            "bibliothecaire".to_string(),
            "rechercher par ISBN".to_string(),
            "trouver un ouvrage".to_string(),
        )],
        source_files: vec![],
        language: Language::French,
    };

    let result = service.refine(&mut adapter, &RefineJsonDecoder, &FixedTemplates, &story_set, None);
    assert!(result.is_ok());
    let spec = result.unwrap();
    assert_eq!(spec.user_scenarios.len(), 1);
    assert_eq!(spec.functional_requirements.len(), 1);
    assert_eq!(spec.edge_cases.len(), 1);
}

#[test]
fn test_recovery_queue_splits_and_keeps_order() {
    // a four-story batch truncates; both two-story halves then succeed; the
    // completed batches, in order, are exactly the input indices
    let stories: Vec<UserStory> =
        (0..4).map(|i| make_story(&format!("Story {}", i))).collect();
    let story_set = UserStorySet {
        stories,
        source_files: vec![],
        language: Language::French,
    };
    let mut adapter =
        MockLlmAdapter::with_responses(vec![truncated(), stop("{}"), stop("{}")]);
    let result = run_refine_queue(
        &mut adapter,
        &RefineJsonDecoder,
        &FixedTemplates,
        &story_set,
        None,
        0,
        100000,
    );
    let done = result.expect("both halves succeed after the split");
    let batches: Vec<Vec<usize>> = done.iter().map(|p| p.0.clone()).collect();
    assert_eq!(batches, vec![vec![0, 1], vec![2, 3]]);
    assert_eq!(adapter.call_count(), 3);
}

#[test]
fn test_recovery_queue_single_item_truncation_is_terminal() {
    let story_set = UserStorySet {
        stories: vec![make_story("Seule")],
        source_files: vec![],
        language: Language::French,
    };
    let mut adapter = MockLlmAdapter::with_responses(vec![truncated()]);
    let result = run_refine_queue(
        &mut adapter,
        &RefineJsonDecoder,
        &FixedTemplates,
        &story_set,
        None,
        0,
        100000,
    );
    assert!(matches!(result, Err(RefinementError::OutputTruncated { .. })));
}

#[test]
fn test_refine_prompt_contains_stories_and_constitution() {
    let story_set = UserStorySet {
        stories: vec![make_story("Connexion")],
        source_files: vec![],
        language: Language::French,
    };
    let prompt = build_refine_prompt(&story_set, Some("Principe A"));
    assert!(prompt.starts_with("Raffine les User Stories suivantes"));
    assert!(prompt.contains("### Connexion - Connexion"));
    assert!(prompt.contains("En tant que acteur, je veux faire une chose afin de gagner du temps."));
    assert!(prompt.contains("Principes du projet (constitution):\nPrincipe A"));
}

#[test]
fn test_refine_parses_classifications() {
    let payload = "{\"functional_requirements\": [{\"id\": \"FR-001\",\"statement\": \"Le systeme DOIT chiffrer\", \"priority\": \"MUST\",\"category\": \"non-functional\", \"testable\": true,\"verification_method\": \"analysis\", \"risk_level\": \"critique\",\"quality_characteristic\": \"securite\"}]}";
    let mut adapter = MockLlmAdapter::new(vec![payload.to_string()]);
    let service = RefineService::new(0);
    let story_set = UserStorySet {
        stories: vec![make_story("Chiffrement")],
        source_files: vec![],
        language: Language::French,
    };
    let spec = service
        .refine(&mut adapter, &RefineJsonDecoder, &FixedTemplates, &story_set, None)
        .unwrap();
    let fr = &spec.functional_requirements[0];
    assert_eq!(fr.priority, Priority::P1);
    assert_eq!(fr.category, RequirementCategory::NonFunctional);
    assert_eq!(fr.verification_method, VerificationMethod::Analysis);
    assert_eq!(
        fr.risk_level,
        Some(spec_forge::specification::RiskLevel::High)
    );
    assert_eq!(
        fr.quality_characteristic,
        Some(spec_forge::specification::QualityCharacteristic::Security)
    );
}

#[test]
fn test_refine_drops_blank_requirements() {
    let payload = "{\"functional_requirements\": [{\"id\": \"  \", \"statement\": \"DOIT A\"},{\"id\": \"FR-001\", \"statement\": \"DOIT B\"},{\"id\": \"FR-002\", \"statement\": \"   \"}]}";
    let mut adapter = MockLlmAdapter::new(vec![payload.to_string()]);
    let service = RefineService::new(0);
    let story_set = UserStorySet {
        stories: vec![make_story("Tri")],
        source_files: vec![],
        language: Language::French,
    };
    let spec = service
        .refine(&mut adapter, &RefineJsonDecoder, &FixedTemplates, &story_set, None)
        .unwrap();
    assert_eq!(spec.functional_requirements.len(), 1);
    assert_eq!(spec.functional_requirements[0].id, "FR-001");
}

// ---------------------------------------------------------------------------
// Test generation
// ---------------------------------------------------------------------------

fn spec_with_frs(ids: &[&str]) -> Specification {
    let mut spec = Specification::new("Spec".to_string());
    for id in ids {
        spec.functional_requirements.push(FunctionalRequirement {
            id: id.to_string(),
            statement: format!("Le systeme DOIT {}", id),
            priority: Priority::P2,
            category: RequirementCategory::Functional,
            testable: true,
            rationale: None,
            source: None,
            verification_method: VerificationMethod::Test,
            risk_level: None,
            parent_requirement: None,
            allocated_to: vec![],
            quality_characteristic: None,
        });
    }
    spec
}

fn feature_covering(name: &str, fr: &str) -> String {
    format!(
        "{{\"features\": [{{\"name\": \"{}\", \"covered_requirements\": [\"{}\"], \"scenarios\": [{{\"name\": \"S {}\", \"steps\": [], \"verification_of\": [\"{}\"]}}]}}]}}",
        name, fr, fr, fr
    )
}

#[test]
fn test_generate_full_coverage_single_call() {
    let spec = spec_with_frs(&["FR-001"]);
    let mut adapter = MockLlmAdapter::new(vec![feature_covering("F1", "FR-001")]);
    let service = GenerateTestsService::new(Language::French, 0);
    let suite = service
        .generate(&mut adapter, &TestJsonDecoder, &FixedTemplates, &spec)
        .unwrap();
    assert_eq!(suite.features.len(), 1);
    assert_eq!(suite.coverage.coverage_percentage, 100);
    assert_eq!(suite.source_spec_id, spec.id);
    // full coverage leaves nothing for the gap-fill passes
    assert_eq!(adapter.call_count(), 1);
}

#[test]
fn test_generate_gap_fill_covers_missing_requirement() {
    let spec = spec_with_frs(&["FR-001", "FR-002"]);
    // the first response covers FR-001 only; the gap-fill chunk then covers
    // FR-002
    let mut adapter = MockLlmAdapter::new(vec![
        feature_covering("F1", "FR-001"),
        feature_covering("F2", "FR-002"),
    ]);
    let service = GenerateTestsService::new(Language::French, 0);
    let suite = service
        .generate(&mut adapter, &TestJsonDecoder, &FixedTemplates, &spec)
        .unwrap();
    assert_eq!(suite.coverage.coverage_percentage, 100);
    assert_eq!(suite.features.len(), 2);
    assert_eq!(adapter.call_count(), 2);
}

#[test]
fn test_generate_single_item_truncation_is_terminal() {
    let mut spec = spec_with_frs(&["FR-001"]);
    spec.user_scenarios.push(spec_forge::specification::UserScenario {
        id: "US-001".to_string(),
        title: "T".to_string(),
        priority: Priority::P2,
        description: "d".to_string(),
        why_priority: String::new(),
        independent_test: String::new(),
        acceptance_scenarios: vec![],
        source_story_id: 1,
    });
    let mut adapter = MockLlmAdapter::with_responses(vec![truncated()]);
    let service = GenerateTestsService::new(Language::French, 0);
    let result = service.generate(&mut adapter, &TestJsonDecoder, &FixedTemplates, &spec);
    assert!(matches!(
        result,
        Err(spec_forge::errors::GenerationError::OutputTruncated { .. })
    ));
}

#[test]
fn test_generate_parses_feature_fields() {
    let spec = spec_with_frs(&["FR-001"]);
    let payload = "{\"features\": [{\"name\": \"F\", \"description\": \"D\",\"test_level\": \"unit\", \"covered_requirements\": [\"FR-001\"],\"scenarios\": [{\"name\": \"S\", \"scenario_type\": \"edge_case\",\"steps\": [{\"keyword\": \"Soit\", \"text\": \"un contexte\"}],\"verification_of\": [\"FR-001\"], \"coverage_technique\": \"bva\"}]}]}";
    let mut adapter = MockLlmAdapter::new(vec![payload.to_string()]);
    let service = GenerateTestsService::new(Language::French, 0);
    let suite = service
        .generate(&mut adapter, &TestJsonDecoder, &FixedTemplates, &spec)
        .unwrap();
    let feature = &suite.features[0];
    assert_eq!(feature.test_level, spec_forge::test_case::TestLevel::Unit);
    let scenario = &feature.scenarios[0];
    assert_eq!(scenario.scenario_type, spec_forge::test_case::ScenarioType::EdgeCase);
    assert_eq!(scenario.steps[0].keyword, spec_forge::test_case::StepKeyword::Given);
    assert_eq!(
        scenario.coverage_technique,
        Some(spec_forge::test_case::CoverageTechnique::BoundaryValueAnalysis)
    );
}

#[test]
fn test_collect_gaps_and_chunking() {
    let mut spec = spec_forge::specification::Specification::new("S".to_string());
    for id in ["FR-001", "FR-002", "FR-003"] {
        spec.functional_requirements.push(FunctionalRequirement {
            id: id.to_string(),
            statement: "Le service doit repondre".to_string(),
            priority: spec_forge::story::Priority::P1,
            category: spec_forge::specification::RequirementCategory::Functional,
            testable: true,
            rationale: None,
            source: None,
            verification_method: spec_forge::specification::VerificationMethod::Test,
            risk_level: None,
            parent_requirement: None,
            allocated_to: vec![],
            quality_characteristic: None,
        });
    }
    let covered = vec!["FR-002".to_string()];
    let gaps = collect_gaps(&spec, &covered);
    let ids: Vec<&str> = gaps.iter().map(|f| f.id.as_str()).collect();
    assert_eq!(ids, vec!["FR-001", "FR-003"]);
    let chunk = duplicate_range(&gaps, 1, 2);
    assert_eq!(chunk.len(), 1);
    assert_eq!(chunk[0].id, "FR-003");
}
