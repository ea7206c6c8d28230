use spec_forge::parse::{default_category, default_scenario_type, default_severity, default_true,
    parse_category, parse_coverage_technique, parse_keyword, parse_priority,
    parse_quality_characteristic, parse_risk_level, parse_scenario_type, parse_test_level};
use spec_forge::specification::{QualityCharacteristic, RequirementCategory, RiskLevel,
    VerificationMethod};
use spec_forge::textutil::{fold_lower, fold_lower_char, fold_upper_char};
use spec_forge::story::Priority;
use spec_forge::test_case::{CoverageTechnique, ScenarioType, StepKeyword, TestLevel};

#[test]
fn test_parse_keyword() {
    assert_eq!(parse_keyword("Given"), StepKeyword::Given);
    assert_eq!(parse_keyword("Soit"), StepKeyword::Given);
    assert_eq!(parse_keyword("When"), StepKeyword::When);
    assert_eq!(parse_keyword("Quand"), StepKeyword::When);
    assert_eq!(parse_keyword("Then"), StepKeyword::Then);
    assert_eq!(parse_keyword("Alors"), StepKeyword::Then);
}

#[test]
fn test_parse_keyword_and_but() {
    assert_eq!(parse_keyword("And"), StepKeyword::And);
    assert_eq!(parse_keyword("Et"), StepKeyword::And);
    assert_eq!(parse_keyword("But"), StepKeyword::But);
    assert_eq!(parse_keyword("Mais"), StepKeyword::But);
}

#[test]
fn test_parse_keyword_unknown_defaults_to_and() {
    assert_eq!(parse_keyword("unknown"), StepKeyword::And);
    assert_eq!(parse_keyword(""), StepKeyword::And);
}

#[test]
fn test_parse_scenario_type() {
    assert_eq!(parse_scenario_type("HappyPath"), ScenarioType::HappyPath);
    assert_eq!(parse_scenario_type("edge_case"), ScenarioType::EdgeCase);
    assert_eq!(parse_scenario_type("error"), ScenarioType::ErrorScenario);
}

#[test]
fn test_parse_scenario_type_boundary() {
    assert_eq!(parse_scenario_type("BoundaryCondition"), ScenarioType::BoundaryCondition);
    assert_eq!(parse_scenario_type("boundary"), ScenarioType::BoundaryCondition);
}

#[test]
fn test_parse_scenario_type_unknown_defaults_to_happy() {
    assert_eq!(parse_scenario_type("unknown"), ScenarioType::HappyPath);
    assert_eq!(parse_scenario_type(""), ScenarioType::HappyPath);
}

#[test]
fn test_parse_priority() {
    assert_eq!(parse_priority("P1"), Priority::P1);
    assert_eq!(parse_priority("MUST"), Priority::P1);
    assert_eq!(parse_priority("P2"), Priority::P2);
    assert_eq!(parse_priority("unknown"), Priority::P3);
}

#[test]
fn test_parse_category() {
    assert_eq!(parse_category("Functional"), RequirementCategory::Functional);
    assert_eq!(parse_category("non-functional"), RequirementCategory::NonFunctional);
    assert_eq!(parse_category("Constraint"), RequirementCategory::Constraint);
}

#[test]
fn test_parse_priority_all_variants() {
    assert_eq!(parse_priority("P1"), Priority::P1);
    assert_eq!(parse_priority("MUST"), Priority::P1);
    assert_eq!(parse_priority("HAUTE"), Priority::P1);
    assert_eq!(parse_priority("HIGH"), Priority::P1);
    assert_eq!(parse_priority("P2"), Priority::P2);
    assert_eq!(parse_priority("SHOULD"), Priority::P2);
    assert_eq!(parse_priority("MOYENNE"), Priority::P2);
    assert_eq!(parse_priority("MEDIUM"), Priority::P2);
    assert_eq!(parse_priority("P3"), Priority::P3);
    assert_eq!(parse_priority("anything"), Priority::P3);
}

#[test]
fn test_parse_category_all_variants() {
    assert_eq!(parse_category("Functional"), RequirementCategory::Functional);
    assert_eq!(parse_category("fonctionnelle"), RequirementCategory::Functional);
    assert_eq!(parse_category("non-functional"), RequirementCategory::NonFunctional);
    assert_eq!(parse_category("NonFunctional"), RequirementCategory::NonFunctional);
    assert_eq!(parse_category("non-fonctionnelle"), RequirementCategory::NonFunctional);
    assert_eq!(parse_category("Constraint"), RequirementCategory::Constraint);
    assert_eq!(parse_category("contrainte"), RequirementCategory::Constraint);
    assert_eq!(parse_category("unknown"), RequirementCategory::Functional);
}

#[test]
fn test_parse_verification_method_all_variants() {
    assert_eq!(parse_verification_method_helper("inspection"), VerificationMethod::Inspection);
    assert_eq!(parse_verification_method_helper("analysis"), VerificationMethod::Analysis);
    assert_eq!(parse_verification_method_helper("analyse"), VerificationMethod::Analysis);
    assert_eq!(
        parse_verification_method_helper("demonstration"),
        VerificationMethod::Demonstration
    );
    assert_eq!(parse_verification_method_helper("demo"), VerificationMethod::Demonstration);
    assert_eq!(parse_verification_method_helper("test"), VerificationMethod::Test);
    assert_eq!(parse_verification_method_helper("unknown"), VerificationMethod::Test);
}

fn parse_verification_method_helper(s: &str) -> VerificationMethod {
    spec_forge::parse::parse_verification_method(s)
}

#[test]
fn test_parse_risk_level_all_variants() {
    assert_eq!(parse_risk_level("high"), RiskLevel::High);
    assert_eq!(parse_risk_level("haute"), RiskLevel::High);
    assert_eq!(parse_risk_level("critique"), RiskLevel::High);
    assert_eq!(parse_risk_level("medium"), RiskLevel::Medium);
    assert_eq!(parse_risk_level("moyenne"), RiskLevel::Medium);
    assert_eq!(parse_risk_level("low"), RiskLevel::Low);
    assert_eq!(parse_risk_level("basse"), RiskLevel::Low);
    assert_eq!(parse_risk_level("mineur"), RiskLevel::Low);
    assert_eq!(parse_risk_level("unknown"), RiskLevel::Medium);
}

#[test]
fn test_parse_quality_characteristic_all_variants() {
    assert_eq!(
        parse_quality_characteristic("FunctionalSuitability"),
        QualityCharacteristic::FunctionalSuitability
    );
    assert_eq!(
        parse_quality_characteristic("performance"),
        QualityCharacteristic::PerformanceEfficiency
    );
    assert_eq!(
        parse_quality_characteristic("compatibility"),
        QualityCharacteristic::Compatibility
    );
    assert_eq!(
        parse_quality_characteristic("usability"),
        QualityCharacteristic::InteractionCapability
    );
    assert_eq!(parse_quality_characteristic("reliability"), QualityCharacteristic::Reliability);
    assert_eq!(parse_quality_characteristic("fiabilite"), QualityCharacteristic::Reliability);
    assert_eq!(parse_quality_characteristic("security"), QualityCharacteristic::Security);
    assert_eq!(parse_quality_characteristic("securite"), QualityCharacteristic::Security);
    assert_eq!(
        parse_quality_characteristic("maintainability"),
        QualityCharacteristic::Maintainability
    );
    assert_eq!(parse_quality_characteristic("flexibility"), QualityCharacteristic::Flexibility);
    assert_eq!(parse_quality_characteristic("portability"), QualityCharacteristic::Flexibility);
    assert_eq!(parse_quality_characteristic("safety"), QualityCharacteristic::Safety);
    assert_eq!(
        parse_quality_characteristic("unknown"),
        QualityCharacteristic::FunctionalSuitability
    );
}

#[test]
fn test_parse_quality_characteristic_separators() {
    assert_eq!(
        parse_quality_characteristic("equivalence partitioning is not a qc"),
        QualityCharacteristic::FunctionalSuitability
    );
    assert_eq!(
        parse_quality_characteristic("Functional Suitability"),
        QualityCharacteristic::FunctionalSuitability
    );
    assert_eq!(
        parse_quality_characteristic("performance-efficiency"),
        QualityCharacteristic::PerformanceEfficiency
    );
}

#[test]
fn test_parse_test_level_all_variants() {
    assert_eq!(parse_test_level("unit"), TestLevel::Unit);
    assert_eq!(parse_test_level("unitaire"), TestLevel::Unit);
    assert_eq!(parse_test_level("integration"), TestLevel::Integration);
    assert_eq!(parse_test_level("system"), TestLevel::System);
    assert_eq!(parse_test_level("systeme"), TestLevel::System);
    assert_eq!(parse_test_level("acceptance"), TestLevel::Acceptance);
    assert_eq!(parse_test_level("acceptation"), TestLevel::Acceptance);
    assert_eq!(parse_test_level("unknown"), TestLevel::Acceptance);
}

#[test]
fn test_parse_coverage_technique_all_variants() {
    assert_eq!(
        parse_coverage_technique("equivalence partitioning"),
        CoverageTechnique::EquivalencePartitioning
    );
    assert_eq!(parse_coverage_technique("ep"), CoverageTechnique::EquivalencePartitioning);
    assert_eq!(
        parse_coverage_technique("boundary value analysis"),
        CoverageTechnique::BoundaryValueAnalysis
    );
    assert_eq!(parse_coverage_technique("bva"), CoverageTechnique::BoundaryValueAnalysis);
    assert_eq!(parse_coverage_technique("decision table"), CoverageTechnique::DecisionTable);
    assert_eq!(parse_coverage_technique("state transition"), CoverageTechnique::StateTransition);
    assert_eq!(parse_coverage_technique("error guessing"), CoverageTechnique::ErrorGuessing);
    assert_eq!(
        parse_coverage_technique("unknown"),
        CoverageTechnique::EquivalencePartitioning
    );
}

#[test]
fn test_parse_defaults() {
    assert_eq!(default_scenario_type(), "HappyPath");
    assert_eq!(default_category(), "Functional");
    assert_eq!(default_severity(), "P2");
    assert!(default_true());
}

#[test]
fn test_fold_accented_characters() {
    assert_eq!(fold_lower_char('È'), 'è');
    assert_eq!(fold_lower_char('Œ'), 'œ');
    assert_eq!(fold_lower_char('Ÿ'), 'ÿ');
    assert_eq!(fold_lower_char('×'), '×');
    assert_eq!(fold_upper_char('é'), 'É');
    assert_eq!(fold_upper_char('œ'), 'Œ');
    assert_eq!(fold_upper_char('ÿ'), 'Ÿ');
    assert_eq!(fold_upper_char('÷'), '÷');
    assert_eq!(fold_upper_char('ß'), 'ß');
    let folded = fold_lower(&"CRITÈRES".chars().collect());
    let text: String = folded.into_iter().collect();
    assert_eq!(text, "critères");
}
