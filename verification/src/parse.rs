//! Permissive parsers for the free-text classification fields of generated
//! payloads. Unrecognised input falls back to a fixed default rather than
//! failing; matching folds ASCII case first.

use vstd::prelude::*;

use crate::specification::{QualityCharacteristic, RequirementCategory, RiskLevel,
    VerificationMethod};
use crate::story::Priority;
use crate::test_case::{CoverageTechnique, ScenarioType, StepKeyword, TestLevel};
use crate::textutil::{fold_lower, fold_upper, chars_eq_str, spec_fold_lower, spec_fold_upper,
    spec_strip_seps, strip_seps, to_chars};

verus! {

pub open spec fn spec_parse_priority(s: Seq<char>) -> Priority {
    let u = spec_fold_upper(s);
    if u == "P1"@ || u == "MUST"@ || u == "HAUTE"@ || u == "HIGH"@ {
        Priority::P1
    } else if u == "P2"@ || u == "SHOULD"@ || u == "MOYENNE"@ || u == "MEDIUM"@ {
        Priority::P2
    } else {
        Priority::P3
    }
}

/// Parses a priority; anything unrecognised is P3.
pub fn parse_priority(s: &str) -> (r: Priority)
    ensures
        r == spec_parse_priority(s@),
{
    let u = fold_upper(&to_chars(s));
    if chars_eq_str(&u, "P1") || chars_eq_str(&u, "MUST") || chars_eq_str(&u, "HAUTE")
        || chars_eq_str(&u, "HIGH") {
        Priority::P1
    } else if chars_eq_str(&u, "P2") || chars_eq_str(&u, "SHOULD") || chars_eq_str(&u, "MOYENNE")
        || chars_eq_str(&u, "MEDIUM") {
        Priority::P2
    } else {
        Priority::P3
    }
}

pub open spec fn spec_parse_category(s: Seq<char>) -> RequirementCategory {
    let l = spec_fold_lower(s);
    if l == "functional"@ || l == "fonctionnelle"@ {
        RequirementCategory::Functional
    } else if l == "nonfunctional"@ || l == "non-functional"@ || l == "non-fonctionnelle"@ {
        RequirementCategory::NonFunctional
    } else if l == "constraint"@ || l == "contrainte"@ {
        RequirementCategory::Constraint
    } else {
        RequirementCategory::Functional
    }
}

/// Parses a requirement category; anything unrecognised is Functional.
pub fn parse_category(s: &str) -> (r: RequirementCategory)
    ensures
        r == spec_parse_category(s@),
{
    let l = fold_lower(&to_chars(s));
    if chars_eq_str(&l, "functional") || chars_eq_str(&l, "fonctionnelle") {
        RequirementCategory::Functional
    } else if chars_eq_str(&l, "nonfunctional") || chars_eq_str(&l, "non-functional")
        || chars_eq_str(&l, "non-fonctionnelle") {
        RequirementCategory::NonFunctional
    } else if chars_eq_str(&l, "constraint") || chars_eq_str(&l, "contrainte") {
        RequirementCategory::Constraint
    } else {
        RequirementCategory::Functional
    }
}

pub open spec fn spec_parse_verification_method(s: Seq<char>) -> VerificationMethod {
    let l = spec_fold_lower(s);
    if l == "inspection"@ {
        VerificationMethod::Inspection
    } else if l == "analysis"@ || l == "analyse"@ {
        VerificationMethod::Analysis
    } else if l == "demonstration"@ || l == "demo"@ {
        VerificationMethod::Demonstration
    } else {
        VerificationMethod::Test
    }
}

/// Parses a verification method; anything unrecognised is Test.
pub fn parse_verification_method(s: &str) -> (r: VerificationMethod)
    ensures
        r == spec_parse_verification_method(s@),
{
    let l = fold_lower(&to_chars(s));
    if chars_eq_str(&l, "inspection") {
        VerificationMethod::Inspection
    } else if chars_eq_str(&l, "analysis") || chars_eq_str(&l, "analyse") {
        VerificationMethod::Analysis
    } else if chars_eq_str(&l, "demonstration") || chars_eq_str(&l, "demo") {
        VerificationMethod::Demonstration
    } else {
        VerificationMethod::Test
    }
}

pub open spec fn spec_parse_risk_level(s: Seq<char>) -> RiskLevel {
    let l = spec_fold_lower(s);
    if l == "high"@ || l == "haute"@ || l == "critique"@ {
        RiskLevel::High
    } else if l == "medium"@ || l == "moyenne"@ || l == "significatif"@ {
        RiskLevel::Medium
    } else if l == "low"@ || l == "basse"@ || l == "mineur"@ {
        RiskLevel::Low
    } else {
        RiskLevel::Medium
    }
}

/// Parses a risk level; anything unrecognised is Medium.
pub fn parse_risk_level(s: &str) -> (r: RiskLevel)
    ensures
        r == spec_parse_risk_level(s@),
{
    let l = fold_lower(&to_chars(s));
    if chars_eq_str(&l, "high") || chars_eq_str(&l, "haute") || chars_eq_str(&l, "critique") {
        RiskLevel::High
    } else if chars_eq_str(&l, "medium") || chars_eq_str(&l, "moyenne") || chars_eq_str(
        &l,
        "significatif",
    ) {
        RiskLevel::Medium
    } else if chars_eq_str(&l, "low") || chars_eq_str(&l, "basse") || chars_eq_str(&l, "mineur") {
        RiskLevel::Low
    } else {
        RiskLevel::Medium
    }
}

pub open spec fn spec_parse_quality_characteristic(s: Seq<char>) -> QualityCharacteristic {
    let l = spec_strip_seps(spec_fold_lower(s));
    if l == "functionalsuitability"@ {
        QualityCharacteristic::FunctionalSuitability
    } else if l == "performanceefficiency"@ || l == "performance"@ {
        QualityCharacteristic::PerformanceEfficiency
    } else if l == "compatibility"@ {
        QualityCharacteristic::Compatibility
    } else if l == "interactioncapability"@ || l == "usability"@ {
        QualityCharacteristic::InteractionCapability
    } else if l == "reliability"@ || l == "fiabilite"@ {
        QualityCharacteristic::Reliability
    } else if l == "security"@ || l == "securite"@ {
        QualityCharacteristic::Security
    } else if l == "maintainability"@ || l == "maintenabilite"@ {
        QualityCharacteristic::Maintainability
    } else if l == "flexibility"@ || l == "portability"@ {
        QualityCharacteristic::Flexibility
    } else if l == "safety"@ || l == "surete"@ {
        QualityCharacteristic::Safety
    } else {
        QualityCharacteristic::FunctionalSuitability
    }
}

/// Parses a quality characteristic; separators are ignored and anything
/// unrecognised is FunctionalSuitability.
pub fn parse_quality_characteristic(s: &str) -> (r: QualityCharacteristic)
    ensures
        r == spec_parse_quality_characteristic(s@),
{
    let l = strip_seps(&fold_lower(&to_chars(s)));
    if chars_eq_str(&l, "functionalsuitability") {
        QualityCharacteristic::FunctionalSuitability
    } else if chars_eq_str(&l, "performanceefficiency") || chars_eq_str(&l, "performance") {
        QualityCharacteristic::PerformanceEfficiency
    } else if chars_eq_str(&l, "compatibility") {
        QualityCharacteristic::Compatibility
    } else if chars_eq_str(&l, "interactioncapability") || chars_eq_str(&l, "usability") {
        QualityCharacteristic::InteractionCapability
    } else if chars_eq_str(&l, "reliability") || chars_eq_str(&l, "fiabilite") {
        QualityCharacteristic::Reliability
    } else if chars_eq_str(&l, "security") || chars_eq_str(&l, "securite") {
        QualityCharacteristic::Security
    } else if chars_eq_str(&l, "maintainability") || chars_eq_str(&l, "maintenabilite") {
        QualityCharacteristic::Maintainability
    } else if chars_eq_str(&l, "flexibility") || chars_eq_str(&l, "portability") {
        QualityCharacteristic::Flexibility
    } else if chars_eq_str(&l, "safety") || chars_eq_str(&l, "surete") {
        QualityCharacteristic::Safety
    } else {
        QualityCharacteristic::FunctionalSuitability
    }
}

pub open spec fn spec_parse_keyword(s: Seq<char>) -> StepKeyword {
    let l = spec_fold_lower(s);
    if l == "given"@ || l == "soit"@ {
        StepKeyword::Given
    } else if l == "when"@ || l == "quand"@ {
        StepKeyword::When
    } else if l == "then"@ || l == "alors"@ {
        StepKeyword::Then
    } else if l == "and"@ || l == "et"@ {
        StepKeyword::And
    } else if l == "but"@ || l == "mais"@ {
        StepKeyword::But
    } else {
        StepKeyword::And
    }
}

/// Parses a Gherkin step keyword; anything unrecognised is And.
pub fn parse_keyword(s: &str) -> (r: StepKeyword)
    ensures
        r == spec_parse_keyword(s@),
{
    let l = fold_lower(&to_chars(s));
    if chars_eq_str(&l, "given") || chars_eq_str(&l, "soit") {
        StepKeyword::Given
    } else if chars_eq_str(&l, "when") || chars_eq_str(&l, "quand") {
        StepKeyword::When
    } else if chars_eq_str(&l, "then") || chars_eq_str(&l, "alors") {
        StepKeyword::Then
    } else if chars_eq_str(&l, "and") || chars_eq_str(&l, "et") {
        StepKeyword::And
    } else if chars_eq_str(&l, "but") || chars_eq_str(&l, "mais") {
        StepKeyword::But
    } else {
        StepKeyword::And
    }
}

pub open spec fn spec_parse_scenario_type(s: Seq<char>) -> ScenarioType {
    let l = spec_fold_lower(s);
    if l == "happypath"@ || l == "happy_path"@ || l == "happy path"@ {
        ScenarioType::HappyPath
    } else if l == "edgecase"@ || l == "edge_case"@ || l == "edge case"@ {
        ScenarioType::EdgeCase
    } else if l == "errorscenario"@ || l == "error_scenario"@ || l == "error"@ {
        ScenarioType::ErrorScenario
    } else if l == "boundarycondition"@ || l == "boundary_condition"@ || l == "boundary"@ {
        ScenarioType::BoundaryCondition
    } else {
        ScenarioType::HappyPath
    }
}

/// Parses a scenario type; anything unrecognised is HappyPath.
pub fn parse_scenario_type(s: &str) -> (r: ScenarioType)
    ensures
        r == spec_parse_scenario_type(s@),
{
    let l = fold_lower(&to_chars(s));
    if chars_eq_str(&l, "happypath") || chars_eq_str(&l, "happy_path") || chars_eq_str(
        &l,
        "happy path",
    ) {
        ScenarioType::HappyPath
    } else if chars_eq_str(&l, "edgecase") || chars_eq_str(&l, "edge_case") || chars_eq_str(
        &l,
        "edge case",
    ) {
        ScenarioType::EdgeCase
    } else if chars_eq_str(&l, "errorscenario") || chars_eq_str(&l, "error_scenario")
        || chars_eq_str(&l, "error") {
        ScenarioType::ErrorScenario
    } else if chars_eq_str(&l, "boundarycondition") || chars_eq_str(&l, "boundary_condition")
        || chars_eq_str(&l, "boundary") {
        ScenarioType::BoundaryCondition
    } else {
        ScenarioType::HappyPath
    }
}

pub open spec fn spec_parse_test_level(s: Seq<char>) -> TestLevel {
    let l = spec_fold_lower(s);
    if l == "unit"@ || l == "unitaire"@ {
        TestLevel::Unit
    } else if l == "integration"@ {
        TestLevel::Integration
    } else if l == "system"@ || l == "systeme"@ {
        TestLevel::System
    } else {
        TestLevel::Acceptance
    }
}

/// Parses a test level; anything unrecognised is Acceptance.
pub fn parse_test_level(s: &str) -> (r: TestLevel)
    ensures
        r == spec_parse_test_level(s@),
{
    let l = fold_lower(&to_chars(s));
    if chars_eq_str(&l, "unit") || chars_eq_str(&l, "unitaire") {
        TestLevel::Unit
    } else if chars_eq_str(&l, "integration") {
        TestLevel::Integration
    } else if chars_eq_str(&l, "system") || chars_eq_str(&l, "systeme") {
        TestLevel::System
    } else {
        TestLevel::Acceptance
    }
}

pub open spec fn spec_parse_coverage_technique(s: Seq<char>) -> CoverageTechnique {
    let l = spec_strip_seps(spec_fold_lower(s));
    if l == "equivalencepartitioning"@ || l == "ep"@ {
        CoverageTechnique::EquivalencePartitioning
    } else if l == "boundaryvalueanalysis"@ || l == "bva"@ {
        CoverageTechnique::BoundaryValueAnalysis
    } else if l == "decisiontable"@ || l == "dt"@ {
        CoverageTechnique::DecisionTable
    } else if l == "statetransition"@ || l == "st"@ {
        CoverageTechnique::StateTransition
    } else if l == "errorguessing"@ || l == "eg"@ {
        CoverageTechnique::ErrorGuessing
    } else {
        CoverageTechnique::EquivalencePartitioning
    }
}

/// Parses a coverage technique; separators are ignored and anything
/// unrecognised is EquivalencePartitioning.
pub fn parse_coverage_technique(s: &str) -> (r: CoverageTechnique)
    ensures
        r == spec_parse_coverage_technique(s@),
{
    let l = strip_seps(&fold_lower(&to_chars(s)));
    if chars_eq_str(&l, "equivalencepartitioning") || chars_eq_str(&l, "ep") {
        CoverageTechnique::EquivalencePartitioning
    } else if chars_eq_str(&l, "boundaryvalueanalysis") || chars_eq_str(&l, "bva") {
        CoverageTechnique::BoundaryValueAnalysis
    } else if chars_eq_str(&l, "decisiontable") || chars_eq_str(&l, "dt") {
        CoverageTechnique::DecisionTable
    } else if chars_eq_str(&l, "statetransition") || chars_eq_str(&l, "st") {
        CoverageTechnique::StateTransition
    } else if chars_eq_str(&l, "errorguessing") || chars_eq_str(&l, "eg") {
        CoverageTechnique::ErrorGuessing
    } else {
        CoverageTechnique::EquivalencePartitioning
    }
}

/// Default scenario type of a generated scenario, as free text.
pub fn default_scenario_type() -> (r: String)
    ensures
        r@ == "HappyPath"@,
{
    String::from_str("HappyPath")
}

/// Default category of a generated requirement, as free text.
pub fn default_category() -> (r: String)
    ensures
        r@ == "Functional"@,
{
    String::from_str("Functional")
}

/// Default severity of a generated edge case, as free text.
pub fn default_severity() -> (r: String)
    ensures
        r@ == "P2"@,
{
    String::from_str("P2")
}

/// Default for boolean payload fields that are absent.
pub fn default_true() -> (r: bool)
    ensures
        r,
{
    true
}

} // verus!
