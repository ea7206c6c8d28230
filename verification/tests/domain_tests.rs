use spec_forge::config::ComplianceConfig;
use spec_forge::errors::InputError;
use spec_forge::pipeline_stage::PipelineStage;
use spec_forge::readers::{MarkdownReader, PdfReader, YamlReader};
use spec_forge::specification::{AsilLevel, Clarification, ComplianceProfile, DalLevel,
    FunctionalRequirement, RequirementCategory, SilLevel, Specification, SpecStatus, SsilLevel,
    SwClass, VerificationMethod};
use spec_forge::story::{Language, Priority, UserStory, UserStorySet};
use spec_forge::test_case::{Feature, Scenario, ScenarioCounts, ScenarioType, StepKeyword,
    TestCoverage, TestLevel, TestSuite};

#[test]
fn test_user_story_creation() {
    let us = UserStory::new(
        "Recherche ISBN".to_string(),
        "bibliothecaire".to_string(),
        "rechercher un livre par ISBN".to_string(),
        "trouver rapidement un ouvrage".to_string(),
    );
    assert!(us.id != 0);
    assert_eq!(us.title, "Recherche ISBN");
    assert!(us.priority.is_none());
}

#[test]
fn test_standard_format() {
    let us = UserStory::new(
        "Test".to_string(),
        "utilisateur".to_string(),
        "me connecter".to_string(),
        "acceder a mon compte".to_string(),
    );
    assert_eq!(
        us.to_standard_format(),
        "En tant que utilisateur, je veux me connecter afin de acceder a mon compte."
    );
}

#[test]
fn test_priority_display() {
    assert_eq!(Priority::P1.label(), "P1 (Must)");
    assert_eq!(Priority::P2.label(), "P2 (Should)");
    assert_eq!(Priority::P3.label(), "P3 (Could)");
}

#[test]
fn test_language_gherkin_code() {
    assert_eq!(Language::French.gherkin_code(), "fr");
    assert_eq!(Language::English.gherkin_code(), "en");
}

#[test]
fn test_language_from_code() {
    assert_eq!(Language::from_code("en"), Language::English);
    assert_eq!(Language::from_code("english"), Language::English);
    assert_eq!(Language::from_code("fr"), Language::French);
    assert_eq!(Language::from_code("anything"), Language::French);
}

#[test]
fn test_merge_story_sets() {
    let set1 = UserStorySet {
        stories: vec![UserStory::new(
            "US1".to_string(),
            "actor".to_string(),
            "action1".to_string(),
            "benefit1".to_string(),
        )],
        source_files: vec!["file1.md".to_string()],
        language: Language::French,
    };
    let set2 = UserStorySet {
        stories: vec![
            UserStory::new(
                "US2".to_string(),
                "actor".to_string(),
                "action2".to_string(),
                "benefit2".to_string(),
            ),
            UserStory::new(
                "US3".to_string(),
                "actor".to_string(),
                "action3".to_string(),
                "benefit3".to_string(),
            ),
        ],
        source_files: vec!["file2.yaml".to_string()],
        language: Language::French,
    };

    let merged = UserStorySet::merge(vec![set1, set2]);
    assert_eq!(merged.stories.len(), 3);
    assert_eq!(merged.source_files, vec!["file1.md", "file2.yaml"]);
    assert_eq!(merged.language, Language::French);
}

#[test]
fn test_merge_empty() {
    let merged = UserStorySet::merge(vec![]);
    assert!(merged.stories.is_empty());
    assert!(merged.source_files.is_empty());
}

#[test]
fn test_specification_creation() {
    let spec = Specification::new("Test Feature".to_string());
    assert!(spec.id != 0);
    assert_eq!(spec.status, SpecStatus::Draft);
    assert_eq!(spec.total_requirements(), 0);
}

#[test]
fn test_specification_defaults() {
    let spec = Specification::new("Defaults".to_string());
    assert_eq!(spec.version, "1.0.0");
    assert!(spec.baseline.is_none());
    assert!(spec.author.is_none());
    assert!(spec.compliance_profile.is_none());
    assert!(spec.validation.is_none());
    assert!(spec.source_stories.is_empty());
}

#[test]
fn test_unresolved_clarifications() {
    let mut spec = Specification::new("Test".to_string());
    assert!(!spec.has_unresolved_clarifications());

    spec.clarifications_needed.push(Clarification {
        question: "Quelle auth ?".to_string(),
        context: "FR-006".to_string(),
        suggested_options: vec!["OAuth".to_string(), "JWT".to_string()],
        impact: "Architecture auth".to_string(),
        resolved: false,
        answer: None,
    });
    assert!(spec.has_unresolved_clarifications());
}

#[test]
fn test_resolved_clarifications() {
    let mut spec = Specification::new("Test".to_string());
    spec.clarifications_needed.push(Clarification {
        question: "Quel protocole ?".to_string(),
        context: "FR-001".to_string(),
        suggested_options: vec!["REST".to_string(), "gRPC".to_string()],
        impact: "Interface API".to_string(),
        resolved: true,
        answer: Some("REST".to_string()),
    });
    assert!(!spec.has_unresolved_clarifications());
}

#[test]
fn test_total_requirements() {
    let mut spec = Specification::new("Test".to_string());
    assert_eq!(spec.total_requirements(), 0);

    spec.functional_requirements.push(FunctionalRequirement {
        id: "FR-001".to_string(),
        statement: "System MUST authenticate".to_string(),
        priority: Priority::P1,
        category: RequirementCategory::Functional,
        testable: true,
        rationale: None,
        source: None,
        verification_method: VerificationMethod::default(),
        risk_level: None,
        parent_requirement: None,
        allocated_to: Vec::new(),
        quality_characteristic: None,
    });
    assert_eq!(spec.total_requirements(), 1);
}

#[test]
fn test_spec_status_display() {
    assert_eq!(SpecStatus::Draft.label(), "Draft");
    assert_eq!(SpecStatus::NeedsClarification.label(), "Needs Clarification");
    assert_eq!(SpecStatus::Validated.label(), "Validated");
}

#[test]
fn test_verification_method_display() {
    assert_eq!(VerificationMethod::Inspection.label(), "Inspection");
    assert_eq!(VerificationMethod::Analysis.label(), "Analysis");
    assert_eq!(VerificationMethod::Demonstration.label(), "Demonstration");
    assert_eq!(VerificationMethod::Test.label(), "Test");
}

#[test]
fn test_verification_method_default() {
    assert_eq!(VerificationMethod::default(), VerificationMethod::Test);
}

#[test]
fn test_requirement_category_display() {
    assert_eq!(RequirementCategory::Functional.label(), "Fonctionnelle");
    assert_eq!(RequirementCategory::NonFunctional.label(), "Non-fonctionnelle");
    assert_eq!(RequirementCategory::Constraint.label(), "Contrainte");
}

#[test]
fn test_specification_empty_is_valid() {
    let spec = Specification::new("Vide".to_string());
    assert_eq!(spec.total_requirements(), 0);
    assert!(!spec.has_unresolved_clarifications());
    assert!(spec.user_scenarios.is_empty());
    assert!(spec.key_entities.is_empty());
    assert!(spec.edge_cases.is_empty());
    assert!(spec.success_criteria.is_empty());
}

#[test]
fn test_feature_creation() {
    let feature = Feature::new("Recherche".to_string(), "Recherche par ISBN".to_string());
    assert!(feature.id != 0);
    assert_eq!(feature.name, "Recherche");
    assert!(feature.scenarios.is_empty());
}

#[test]
fn test_step_keyword_french() {
    assert_eq!(StepKeyword::Given.to_french(), "Soit");
    assert_eq!(StepKeyword::When.to_french(), "Quand");
    assert_eq!(StepKeyword::Then.to_french(), "Alors");
    assert_eq!(StepKeyword::And.to_french(), "Et");
    assert_eq!(StepKeyword::But.to_french(), "Mais");
}

#[test]
fn test_step_keyword_english() {
    assert_eq!(StepKeyword::Given.to_english(), "Given");
    assert_eq!(StepKeyword::But.to_english(), "But");
}

#[test]
fn test_scenario_type_display() {
    assert_eq!(ScenarioType::HappyPath.label(), "happy_path");
    assert_eq!(ScenarioType::ErrorScenario.label(), "error");
}

#[test]
fn test_coverage_computation() {
    let mut suite = TestSuite {
        features: vec![Feature {
            id: 9,
            name: "Test".to_string(),
            description: String::new(),
            tags: vec![],
            background: None,
            scenarios: vec![
                Scenario {
                    name: "Happy".to_string(),
                    tags: vec![],
                    scenario_type: ScenarioType::HappyPath,
                    steps: vec![],
                    examples: None,
                    test_data_suggestions: vec![],
                    verification_of: Vec::new(),
                    coverage_technique: None,
                },
                Scenario {
                    name: "Error".to_string(),
                    tags: vec![],
                    scenario_type: ScenarioType::ErrorScenario,
                    steps: vec![],
                    examples: None,
                    test_data_suggestions: vec![],
                    verification_of: Vec::new(),
                    coverage_technique: None,
                },
            ],
            source_scenario_ids: vec![],
            covered_requirements: vec!["FR-001".to_string(), "FR-002".to_string()],
            test_level: TestLevel::Acceptance,
        }],
        source_spec_id: 3,
        total_scenarios: 0,
        coverage: TestCoverage {
            requirements_covered: vec![],
            requirements_total: 0,
            coverage_percentage: 0,
            scenarios_by_type: ScenarioCounts::default(),
        },
    };

    suite.compute_coverage(4);
    assert_eq!(suite.total_scenarios, 2);
    assert_eq!(suite.coverage.requirements_covered.len(), 2);
    assert_eq!(suite.coverage.coverage_percentage, 50);
    assert_eq!(suite.coverage.scenarios_by_type.happy_path, 1);
    assert_eq!(suite.coverage.scenarios_by_type.error_scenario, 1);
}

#[test]
fn test_input_error_display() {
    let err = InputError::FileNotFound { path: "test.md".to_string() };
    assert_eq!(err.message(), "Fichier non trouve: test.md");
}

#[test]
fn test_pipeline_stage_labels() {
    assert_eq!(PipelineStage::ReadingInput.label(), "Lecture du fichier");
    assert_eq!(PipelineStage::RefiningSpec.label(), "Raffinement LLM");
    assert_eq!(PipelineStage::GeneratingTests.label(), "Generation des tests");
    assert_eq!(PipelineStage::WritingOutput.label(), "Ecriture des sorties");
}

#[test]
fn test_pipeline_stage_equality() {
    assert_eq!(PipelineStage::ReadingInput, PipelineStage::ReadingInput);
    assert_ne!(PipelineStage::ReadingInput, PipelineStage::WritingOutput);
}

#[test]
fn test_compliance_config_default() {
    let config = ComplianceConfig::default();
    assert_eq!(config.profile, "general");
    assert!(config.safety_level.is_none());
    assert!(config.include_metadata);
    assert!(!config.strict_validation);
    assert!(!config.require_rationale);
    assert!(!config.require_risk_level);
    assert!(config.normative_keywords);
    assert_eq!(config.min_p1_coverage, 100);
    assert_eq!(config.min_p2_coverage, 80);
    assert_eq!(config.min_p3_coverage, 60);
}

#[test]
fn test_compliance_to_profile_general() {
    let config = ComplianceConfig::default();
    let profile = config.to_compliance_profile();
    assert!(matches!(profile, Some(ComplianceProfile::General)));
}

#[test]
fn test_compliance_to_profile_aviation() {
    let config = ComplianceConfig {
        profile: "aviation".to_string(),
        safety_level: Some("DAL-B".to_string()),
        ..ComplianceConfig::default()
    };
    let profile = config.to_compliance_profile();
    assert!(matches!(profile, Some(ComplianceProfile::Aviation(DalLevel::B))));
}

#[test]
fn test_compliance_to_profile_medical() {
    let config = ComplianceConfig {
        profile: "medical".to_string(),
        safety_level: Some("SW-C".to_string()),
        ..ComplianceConfig::default()
    };
    let profile = config.to_compliance_profile();
    assert!(matches!(profile, Some(ComplianceProfile::Medical(SwClass::C))));
}

#[test]
fn test_compliance_to_profile_unknown() {
    let config = ComplianceConfig {
        profile: "unknown".to_string(),
        ..ComplianceConfig::default()
    };
    let profile = config.to_compliance_profile();
    assert!(profile.is_none());
}

#[test]
fn test_compliance_to_profile_automotive() {
    let config = ComplianceConfig {
        profile: "automotive".to_string(),
        safety_level: Some("ASIL-D".to_string()),
        ..ComplianceConfig::default()
    };
    let profile = config.to_compliance_profile();
    assert!(matches!(profile, Some(ComplianceProfile::Automotive(AsilLevel::D))));
}

#[test]
fn test_compliance_to_profile_railway() {
    let config = ComplianceConfig {
        profile: "railway".to_string(),
        safety_level: Some("SSIL-3".to_string()),
        ..ComplianceConfig::default()
    };
    let profile = config.to_compliance_profile();
    assert!(matches!(profile, Some(ComplianceProfile::Railway(SsilLevel::Level3))));
}

#[test]
fn test_compliance_to_profile_safety() {
    let config = ComplianceConfig {
        profile: "safety".to_string(),
        safety_level: Some("SIL-4".to_string()),
        ..ComplianceConfig::default()
    };
    let profile = config.to_compliance_profile();
    assert!(matches!(profile, Some(ComplianceProfile::Safety(SilLevel::Sil4))));
}

#[test]
fn test_compliance_to_profile_default_levels() {
    // without a safety level the profiles use a default sub-level
    let aviation = ComplianceConfig {
        profile: "aviation".to_string(),
        safety_level: None,
        ..ComplianceConfig::default()
    };
    assert!(matches!(
        aviation.to_compliance_profile(),
        Some(ComplianceProfile::Aviation(DalLevel::E))
    ));

    let safety = ComplianceConfig {
        profile: "safety".to_string(),
        safety_level: None,
        ..ComplianceConfig::default()
    };
    assert!(matches!(safety.to_compliance_profile(), Some(ComplianceProfile::Safety(SilLevel::Sil1))));
}

#[test]
fn test_compliance_profile_case_insensitive() {
    let config = ComplianceConfig {
        profile: "AVIATION".to_string(),
        safety_level: Some("a".to_string()),
        ..ComplianceConfig::default()
    };
    let profile = config.to_compliance_profile();
    assert!(matches!(profile, Some(ComplianceProfile::Aviation(DalLevel::A))));
}

#[test]
fn test_detect_language_french() {
    let reader = MarkdownReader::new();
    let content = "En tant que bibliothécaire, je veux rechercher un livre afin de le prêter.";
    assert_eq!(reader.detect_language(content), Language::French);
}

#[test]
fn test_detect_language_english() {
    let reader = MarkdownReader::new();
    let content = "As a user, I want to search for a book so that I can borrow it.";
    assert_eq!(reader.detect_language(content), Language::English);
}

#[test]
fn test_pdf_reader_default() {
    let reader = PdfReader::default();
    assert_eq!(
        reader.detect_language("As a user, I want this so that it works"),
        Language::English
    );
}

#[test]
fn test_yaml_reader_default() {
    let reader = YamlReader::default();
    assert_eq!(reader.detect_language("language: en"), Language::English);
    assert_eq!(reader.detect_language("stories: []"), Language::French);
}

#[test]
fn test_detect_language_empty() {
    assert_eq!(spec_forge::language::detect_language(""), Language::French);
}

#[test]
fn test_detect_language_mixed_tie_is_french() {
    let content = "En tant que user, I want something so that it works. Je veux afin de scenario";
    assert_eq!(spec_forge::language::detect_language(content), Language::French);
}

#[test]
fn test_coverage_covered_ids_sorted_and_unique() {
    let mk_scenario = |ids: Vec<&str>| Scenario {
        name: "S".to_string(),
        tags: vec![],
        scenario_type: ScenarioType::HappyPath,
        steps: vec![],
        examples: None,
        test_data_suggestions: vec![],
        verification_of: ids.into_iter().map(|s| s.to_string()).collect(),
        coverage_technique: None,
    };
    let mut suite = TestSuite {
        features: vec![Feature {
            id: 1,
            name: "F".to_string(),
            description: String::new(),
            tags: vec![],
            background: None,
            scenarios: vec![mk_scenario(vec!["FR-003", "FR-001"]), mk_scenario(vec!["FR-002"])],
            source_scenario_ids: vec![],
            covered_requirements: vec!["FR-002".to_string(), "FR-001".to_string()],
            test_level: TestLevel::Acceptance,
        }],
        source_spec_id: 7,
        total_scenarios: 0,
        coverage: TestCoverage {
            requirements_covered: vec![],
            requirements_total: 0,
            coverage_percentage: 0,
            scenarios_by_type: ScenarioCounts::default(),
        },
    };
    suite.compute_coverage(3);
    assert_eq!(
        suite.coverage.requirements_covered,
        vec!["FR-001".to_string(), "FR-002".to_string(), "FR-003".to_string()]
    );
    assert_eq!(suite.coverage.coverage_percentage, 100);
}
