//! Refined specification produced from the user stories: scenarios,
//! functional requirements, key entities, edge cases, success criteria and
//! pending clarifications.

use vstd::prelude::*;

use crate::dup::{dup_opt, dup_vec, Duplicate};
use crate::ids::{fresh_id, now_millis};
use crate::story::Priority;

verus! {

// ---------------------------------------------------------------------------
// Classification enums
// ---------------------------------------------------------------------------

/// How a requirement is verified.
#[derive(Clone, Copy, Debug, PartialEq, Eq, Structural)]
pub enum VerificationMethod {
    /// Visual/document review.
    Inspection,
    /// Formal or mathematical analysis.
    Analysis,
    /// Execution with observation.
    Demonstration,
    /// Execution with automated checks.
    Test,
}

impl DeepView for VerificationMethod {
    type V = VerificationMethod;

    open spec fn deep_view(&self) -> VerificationMethod {
        *self
    }
}

impl Default for VerificationMethod {
    fn default() -> (r: Self)
        ensures
            r == VerificationMethod::Test,
    {
        VerificationMethod::Test
    }
}

impl VerificationMethod {
    pub fn label(&self) -> (r: &'static str)
        ensures
            *self == VerificationMethod::Inspection ==> r@ == "Inspection"@,
            *self == VerificationMethod::Analysis ==> r@ == "Analysis"@,
            *self == VerificationMethod::Demonstration ==> r@ == "Demonstration"@,
            *self == VerificationMethod::Test ==> r@ == "Test"@,
    {
        match self {
            VerificationMethod::Inspection => "Inspection",
            VerificationMethod::Analysis => "Analysis",
            VerificationMethod::Demonstration => "Demonstration",
            VerificationMethod::Test => "Test",
        }
    }
}

/// Criticality of a requirement.
#[derive(Clone, Copy, Debug, PartialEq, Eq, Structural)]
pub enum RiskLevel {
    High,
    Medium,
    Low,
}

impl DeepView for RiskLevel {
    type V = RiskLevel;

    open spec fn deep_view(&self) -> RiskLevel {
        *self
    }
}

impl RiskLevel {
    pub fn label(&self) -> (r: &'static str)
        ensures
            *self == RiskLevel::High ==> r@ == "High"@,
            *self == RiskLevel::Medium ==> r@ == "Medium"@,
            *self == RiskLevel::Low ==> r@ == "Low"@,
    {
        match self {
            RiskLevel::High => "High",
            RiskLevel::Medium => "Medium",
            RiskLevel::Low => "Low",
        }
    }
}

/// Product quality characteristic a non-functional requirement addresses.
#[derive(Clone, Copy, Debug, PartialEq, Eq, Structural)]
pub enum QualityCharacteristic {
    FunctionalSuitability,
    PerformanceEfficiency,
    Compatibility,
    InteractionCapability,
    Reliability,
    Security,
    Maintainability,
    Flexibility,
    Safety,
}

impl DeepView for QualityCharacteristic {
    type V = QualityCharacteristic;

    open spec fn deep_view(&self) -> QualityCharacteristic {
        *self
    }
}

impl QualityCharacteristic {
    pub fn label(&self) -> (r: &'static str)
        ensures
            *self == QualityCharacteristic::FunctionalSuitability ==> r@
                == "Functional Suitability"@,
            *self == QualityCharacteristic::PerformanceEfficiency ==> r@
                == "Performance Efficiency"@,
            *self == QualityCharacteristic::Compatibility ==> r@ == "Compatibility"@,
            *self == QualityCharacteristic::InteractionCapability ==> r@
                == "Interaction Capability"@,
            *self == QualityCharacteristic::Reliability ==> r@ == "Reliability"@,
            *self == QualityCharacteristic::Security ==> r@ == "Security"@,
            *self == QualityCharacteristic::Maintainability ==> r@ == "Maintainability"@,
            *self == QualityCharacteristic::Flexibility ==> r@ == "Flexibility"@,
            *self == QualityCharacteristic::Safety ==> r@ == "Safety"@,
    {
        match self {
            QualityCharacteristic::FunctionalSuitability => "Functional Suitability",
            QualityCharacteristic::PerformanceEfficiency => "Performance Efficiency",
            QualityCharacteristic::Compatibility => "Compatibility",
            QualityCharacteristic::InteractionCapability => "Interaction Capability",
            QualityCharacteristic::Reliability => "Reliability",
            QualityCharacteristic::Security => "Security",
            QualityCharacteristic::Maintainability => "Maintainability",
            QualityCharacteristic::Flexibility => "Flexibility",
            QualityCharacteristic::Safety => "Safety",
        }
    }
}

/// Design assurance level (aviation).
#[derive(Clone, Copy, Debug, PartialEq, Eq, Structural)]
pub enum DalLevel {
    A,
    B,
    C,
    D,
    E,
}

/// Software safety class (medical devices).
#[derive(Clone, Copy, Debug, PartialEq, Eq, Structural)]
pub enum SwClass {
    A,
    B,
    C,
}

/// Automotive safety integrity level.
#[derive(Clone, Copy, Debug, PartialEq, Eq, Structural)]
pub enum AsilLevel {
    A,
    B,
    C,
    D,
}

/// Railway software safety integrity level.
#[derive(Clone, Copy, Debug, PartialEq, Eq, Structural)]
pub enum SsilLevel {
    Level0,
    Level1,
    Level2,
    Level3,
    Level4,
}

/// Safety integrity level (functional safety).
#[derive(Clone, Copy, Debug, PartialEq, Eq, Structural)]
pub enum SilLevel {
    Sil1,
    Sil2,
    Sil3,
    Sil4,
}

/// Regulatory compliance profile.
#[derive(Clone, Copy, Debug, PartialEq, Eq, Structural)]
pub enum ComplianceProfile {
    General,
    Aviation(DalLevel),
    Medical(SwClass),
    Automotive(AsilLevel),
    Railway(SsilLevel),
    Safety(SilLevel),
}

impl DeepView for ComplianceProfile {
    type V = ComplianceProfile;

    open spec fn deep_view(&self) -> ComplianceProfile {
        *self
    }
}

/// Status of the specification.
#[derive(Clone, Copy, Debug, PartialEq, Eq, Structural)]
pub enum SpecStatus {
    Draft,
    NeedsClarification,
    Validated,
}

impl DeepView for SpecStatus {
    type V = SpecStatus;

    open spec fn deep_view(&self) -> SpecStatus {
        *self
    }
}

impl SpecStatus {
    pub fn label(&self) -> (r: &'static str)
        ensures
            *self == SpecStatus::Draft ==> r@ == "Draft"@,
            *self == SpecStatus::NeedsClarification ==> r@ == "Needs Clarification"@,
            *self == SpecStatus::Validated ==> r@ == "Validated"@,
    {
        match self {
            SpecStatus::Draft => "Draft",
            SpecStatus::NeedsClarification => "Needs Clarification",
            SpecStatus::Validated => "Validated",
        }
    }
}

/// Category of a requirement.
#[derive(Clone, Copy, Debug, PartialEq, Eq, Structural)]
pub enum RequirementCategory {
    Functional,
    NonFunctional,
    Constraint,
}

impl DeepView for RequirementCategory {
    type V = RequirementCategory;

    open spec fn deep_view(&self) -> RequirementCategory {
        *self
    }
}

impl RequirementCategory {
    pub fn label(&self) -> (r: &'static str)
        ensures
            *self == RequirementCategory::Functional ==> r@ == "Fonctionnelle"@,
            *self == RequirementCategory::NonFunctional ==> r@ == "Non-fonctionnelle"@,
            *self == RequirementCategory::Constraint ==> r@ == "Contrainte"@,
    {
        match self {
            RequirementCategory::Functional => "Fonctionnelle",
            RequirementCategory::NonFunctional => "Non-fonctionnelle",
            RequirementCategory::Constraint => "Contrainte",
        }
    }
}

// ---------------------------------------------------------------------------
// Records
// ---------------------------------------------------------------------------

/// Mathematical model of an `AcceptanceScenario`.
pub struct AcceptanceScenarioView {
    pub given: Seq<char>,
    pub when: Seq<char>,
    pub then_: Seq<char>,
}

/// An acceptance scenario in given/when/then form.
#[derive(Clone, Debug)]
pub struct AcceptanceScenario {
    pub given: String,
    pub when: String,
    pub then_: String,
}

impl DeepView for AcceptanceScenario {
    type V = AcceptanceScenarioView;

    open spec fn deep_view(&self) -> AcceptanceScenarioView {
        AcceptanceScenarioView { given: self.given@, when: self.when@, then_: self.then_@ }
    }
}

impl Duplicate for AcceptanceScenario {
    fn duplicate(&self) -> (r: Self) {
        AcceptanceScenario {
            given: self.given.clone(),
            when: self.when.clone(),
            then_: self.then_.clone(),
        }
    }
}

/// Mathematical model of a `UserScenario`.
pub struct UserScenarioView {
    pub id: Seq<char>,
    pub title: Seq<char>,
    pub priority: Priority,
    pub description: Seq<char>,
    pub why_priority: Seq<char>,
    pub independent_test: Seq<char>,
    pub acceptance_scenarios: Seq<AcceptanceScenarioView>,
    pub source_story_id: u128,
}

/// A refined user scenario (mapped from a `UserStory`).
#[derive(Clone, Debug)]
pub struct UserScenario {
    /// Identifier such as "US-001".
    pub id: String,
    pub title: String,
    pub priority: Priority,
    pub description: String,
    /// Why this priority was chosen.
    pub why_priority: String,
    /// How the scenario can be tested in isolation.
    pub independent_test: String,
    pub acceptance_scenarios: Vec<AcceptanceScenario>,
    /// Identifier of the source user story.
    pub source_story_id: u128,
}

impl DeepView for UserScenario {
    type V = UserScenarioView;

    open spec fn deep_view(&self) -> UserScenarioView {
        UserScenarioView {
            id: self.id@,
            title: self.title@,
            priority: self.priority,
            description: self.description@,
            why_priority: self.why_priority@,
            independent_test: self.independent_test@,
            acceptance_scenarios: self.acceptance_scenarios.deep_view(),
            source_story_id: self.source_story_id,
        }
    }
}

impl Duplicate for UserScenario {
    fn duplicate(&self) -> (r: Self) {
        UserScenario {
            id: self.id.clone(),
            title: self.title.clone(),
            priority: self.priority,
            description: self.description.clone(),
            why_priority: self.why_priority.clone(),
            independent_test: self.independent_test.clone(),
            acceptance_scenarios: dup_vec(&self.acceptance_scenarios),
            source_story_id: self.source_story_id,
        }
    }
}

/// Mathematical model of a `FunctionalRequirement`.
pub struct FunctionalRequirementView {
    pub id: Seq<char>,
    pub statement: Seq<char>,
    pub priority: Priority,
    pub category: RequirementCategory,
    pub testable: bool,
    pub rationale: Option<Seq<char>>,
    pub source: Option<Seq<char>>,
    pub verification_method: VerificationMethod,
    pub risk_level: Option<RiskLevel>,
    pub parent_requirement: Option<Seq<char>>,
    pub allocated_to: Seq<Seq<char>>,
    pub quality_characteristic: Option<QualityCharacteristic>,
}

/// A functional requirement.
#[derive(Clone, Debug)]
pub struct FunctionalRequirement {
    /// Identifier such as "FR-001".
    pub id: String,
    /// Normative statement ("System MUST ...").
    pub statement: String,
    pub priority: Priority,
    pub category: RequirementCategory,
    pub testable: bool,
    /// Why the requirement exists.
    pub rationale: Option<String>,
    /// Origin (stakeholder, standard, scenario id, ...).
    pub source: Option<String>,
    pub verification_method: VerificationMethod,
    pub risk_level: Option<RiskLevel>,
    /// Identifier of the parent requirement this one derives from.
    pub parent_requirement: Option<String>,
    /// Components the requirement is allocated to.
    pub allocated_to: Vec<String>,
    /// Quality characteristic, for non-functional requirements.
    pub quality_characteristic: Option<QualityCharacteristic>,
}

impl DeepView for FunctionalRequirement {
    type V = FunctionalRequirementView;

    open spec fn deep_view(&self) -> FunctionalRequirementView {
        FunctionalRequirementView {
            id: self.id@,
            statement: self.statement@,
            priority: self.priority,
            category: self.category,
            testable: self.testable,
            rationale: self.rationale.deep_view(),
            source: self.source.deep_view(),
            verification_method: self.verification_method,
            risk_level: self.risk_level,
            parent_requirement: self.parent_requirement.deep_view(),
            allocated_to: self.allocated_to.deep_view(),
            quality_characteristic: self.quality_characteristic,
        }
    }
}

impl Duplicate for FunctionalRequirement {
    fn duplicate(&self) -> (r: Self) {
        FunctionalRequirement {
            id: self.id.clone(),
            statement: self.statement.clone(),
            priority: self.priority,
            category: self.category,
            testable: self.testable,
            rationale: dup_opt(&self.rationale),
            source: dup_opt(&self.source),
            verification_method: self.verification_method,
            risk_level: self.risk_level,
            parent_requirement: dup_opt(&self.parent_requirement),
            allocated_to: dup_vec(&self.allocated_to),
            quality_characteristic: self.quality_characteristic,
        }
    }
}

/// Mathematical model of a `KeyEntity`.
pub struct KeyEntityView {
    pub name: Seq<char>,
    pub description: Seq<char>,
    pub attributes: Seq<Seq<char>>,
    pub relationships: Seq<Seq<char>>,
}

/// A key domain entity identified during refinement.
#[derive(Clone, Debug)]
pub struct KeyEntity {
    pub name: String,
    pub description: String,
    pub attributes: Vec<String>,
    pub relationships: Vec<String>,
}

impl DeepView for KeyEntity {
    type V = KeyEntityView;

    open spec fn deep_view(&self) -> KeyEntityView {
        KeyEntityView {
            name: self.name@,
            description: self.description@,
            attributes: self.attributes.deep_view(),
            relationships: self.relationships.deep_view(),
        }
    }
}

/// Mathematical model of an `EdgeCase`.
pub struct EdgeCaseView {
    pub description: Seq<char>,
    pub related_scenario: Option<Seq<char>>,
    pub severity: Priority,
}

/// An edge case identified during refinement.
#[derive(Clone, Debug)]
pub struct EdgeCase {
    pub description: String,
    /// Identifier of the user scenario the case is tied to, if any.
    pub related_scenario: Option<String>,
    pub severity: Priority,
}

impl DeepView for EdgeCase {
    type V = EdgeCaseView;

    open spec fn deep_view(&self) -> EdgeCaseView {
        EdgeCaseView {
            description: self.description@,
            related_scenario: self.related_scenario.deep_view(),
            severity: self.severity,
        }
    }
}

impl Duplicate for EdgeCase {
    fn duplicate(&self) -> (r: Self) {
        EdgeCase {
            description: self.description.clone(),
            related_scenario: dup_opt(&self.related_scenario),
            severity: self.severity,
        }
    }
}

/// Mathematical model of a `SuccessCriterion`.
pub struct SuccessCriterionView {
    pub id: Seq<char>,
    pub description: Seq<char>,
    pub measurable_metric: Seq<char>,
}

/// A measurable success criterion.
#[derive(Clone, Debug)]
pub struct SuccessCriterion {
    /// Identifier such as "SC-001".
    pub id: String,
    pub description: String,
    pub measurable_metric: String,
}

impl DeepView for SuccessCriterion {
    type V = SuccessCriterionView;

    open spec fn deep_view(&self) -> SuccessCriterionView {
        SuccessCriterionView {
            id: self.id@,
            description: self.description@,
            measurable_metric: self.measurable_metric@,
        }
    }
}

/// Mathematical model of a `Clarification`.
pub struct ClarificationView {
    pub question: Seq<char>,
    pub context: Seq<char>,
    pub suggested_options: Seq<Seq<char>>,
    pub impact: Seq<char>,
    pub resolved: bool,
    pub answer: Option<Seq<char>>,
}

/// An ambiguity that needs clarification before the spec is final.
#[derive(Clone, Debug)]
pub struct Clarification {
    pub question: String,
    pub context: String,
    pub suggested_options: Vec<String>,
    pub impact: String,
    pub resolved: bool,
    pub answer: Option<String>,
}

impl DeepView for Clarification {
    type V = ClarificationView;

    open spec fn deep_view(&self) -> ClarificationView {
        ClarificationView {
            question: self.question@,
            context: self.context@,
            suggested_options: self.suggested_options.deep_view(),
            impact: self.impact@,
            resolved: self.resolved,
            answer: self.answer.deep_view(),
        }
    }
}

impl Duplicate for KeyEntity {
    fn duplicate(&self) -> (r: Self) {
        KeyEntity {
            name: self.name.clone(),
            description: self.description.clone(),
            attributes: dup_vec(&self.attributes),
            relationships: dup_vec(&self.relationships),
        }
    }
}

impl Duplicate for SuccessCriterion {
    fn duplicate(&self) -> (r: Self) {
        SuccessCriterion {
            id: self.id.clone(),
            description: self.description.clone(),
            measurable_metric: self.measurable_metric.clone(),
        }
    }
}

impl Duplicate for Clarification {
    fn duplicate(&self) -> (r: Self) {
        Clarification {
            question: self.question.clone(),
            context: self.context.clone(),
            suggested_options: dup_vec(&self.suggested_options),
            impact: self.impact.clone(),
            resolved: self.resolved,
            answer: dup_opt(&self.answer),
        }
    }
}

/// An item of the validation checklist.
#[derive(Clone, Debug)]
pub struct ChecklistItem {
    pub description: String,
    pub passed: bool,
    pub category: String,
}

/// Mathematical model of a `ChecklistItem`.
pub struct ChecklistItemView {
    pub description: Seq<char>,
    pub passed: bool,
    pub category: Seq<char>,
}

impl DeepView for ChecklistItem {
    type V = ChecklistItemView;

    open spec fn deep_view(&self) -> ChecklistItemView {
        ChecklistItemView {
            description: self.description@,
            passed: self.passed,
            category: self.category@,
        }
    }
}

/// Quality scores over the checklist, each as an integer percentage.
#[derive(Clone, Debug)]
pub struct SpecValidation {
    /// Completeness, 0-100.
    pub completeness_score: u32,
    /// Clarity, 0-100.
    pub clarity_score: u32,
    /// Testability, 0-100.
    pub testability_score: u32,
    pub checklist_items: Vec<ChecklistItem>,
}

/// Mathematical model of a `SpecValidation`.
pub struct SpecValidationView {
    pub completeness_score: u32,
    pub clarity_score: u32,
    pub testability_score: u32,
    pub checklist_items: Seq<ChecklistItemView>,
}

impl DeepView for SpecValidation {
    type V = SpecValidationView;

    open spec fn deep_view(&self) -> SpecValidationView {
        SpecValidationView {
            completeness_score: self.completeness_score,
            clarity_score: self.clarity_score,
            testability_score: self.testability_score,
            checklist_items: self.checklist_items.deep_view(),
        }
    }
}

impl Duplicate for ChecklistItem {
    fn duplicate(&self) -> (r: Self) {
        ChecklistItem {
            description: self.description.clone(),
            passed: self.passed,
            category: self.category.clone(),
        }
    }
}

impl Duplicate for SpecValidation {
    fn duplicate(&self) -> (r: Self) {
        SpecValidation {
            completeness_score: self.completeness_score,
            clarity_score: self.clarity_score,
            testability_score: self.testability_score,
            checklist_items: dup_vec(&self.checklist_items),
        }
    }
}

// ---------------------------------------------------------------------------
// The specification itself
// ---------------------------------------------------------------------------

/// Mathematical model of a `Specification`.
pub struct SpecificationView {
    pub id: u128,
    pub title: Seq<char>,
    pub created_at: i64,
    pub status: SpecStatus,
    pub version: Seq<char>,
    pub baseline: Option<Seq<char>>,
    pub author: Option<Seq<char>>,
    pub tool_version: Seq<char>,
    pub compliance_profile: Option<ComplianceProfile>,
    pub user_scenarios: Seq<UserScenarioView>,
    pub functional_requirements: Seq<FunctionalRequirementView>,
    pub key_entities: Seq<KeyEntityView>,
    pub edge_cases: Seq<EdgeCaseView>,
    pub success_criteria: Seq<SuccessCriterionView>,
    pub clarifications_needed: Seq<ClarificationView>,
    pub validation: Option<SpecValidationView>,
    pub source_stories: Seq<u128>,
}

/// The refined specification produced from the user stories.
#[derive(Clone, Debug)]
pub struct Specification {
    /// Unique identifier (a 128-bit UUID value).
    pub id: u128,
    pub title: String,
    /// Creation time, in milliseconds since the Unix epoch.
    pub created_at: i64,
    pub status: SpecStatus,
    /// Semantic version of the specification document.
    pub version: String,
    /// Baseline identifier (e.g. "BL-2025-001").
    pub baseline: Option<String>,
    pub author: Option<String>,
    /// Version of the tool that produced the specification.
    pub tool_version: String,
    pub compliance_profile: Option<ComplianceProfile>,
    pub user_scenarios: Vec<UserScenario>,
    pub functional_requirements: Vec<FunctionalRequirement>,
    pub key_entities: Vec<KeyEntity>,
    pub edge_cases: Vec<EdgeCase>,
    pub success_criteria: Vec<SuccessCriterion>,
    pub clarifications_needed: Vec<Clarification>,
    pub validation: Option<SpecValidation>,
    /// Identifiers of the user stories this specification came from.
    pub source_stories: Vec<u128>,
}

impl DeepView for Specification {
    type V = SpecificationView;

    open spec fn deep_view(&self) -> SpecificationView {
        SpecificationView {
            id: self.id,
            title: self.title@,
            created_at: self.created_at,
            status: self.status,
            version: self.version@,
            baseline: self.baseline.deep_view(),
            author: self.author.deep_view(),
            tool_version: self.tool_version@,
            compliance_profile: self.compliance_profile,
            user_scenarios: self.user_scenarios.deep_view(),
            functional_requirements: self.functional_requirements.deep_view(),
            key_entities: self.key_entities.deep_view(),
            edge_cases: self.edge_cases.deep_view(),
            success_criteria: self.success_criteria.deep_view(),
            clarifications_needed: self.clarifications_needed.deep_view(),
            validation: self.validation.deep_view(),
            source_stories: self.source_stories.deep_view(),
        }
    }
}

/// Default document version of a fresh specification.
pub fn default_version() -> (r: String)
    ensures
        r@ == "1.0.0"@,
{
    String::from_str("1.0.0")
}

/// Version of this tool, recorded in every specification it produces.
pub fn default_tool_version() -> (r: String)
    ensures
        r@ == "0.1.0"@,
{
    String::from_str("0.1.0")
}

/// True when some clarification is still unresolved.
pub open spec fn spec_has_unresolved(clarifications: Seq<ClarificationView>) -> bool {
    exists|i: int| 0 <= i < clarifications.len() && !clarifications[i].resolved
}

impl Specification {
    /// Creates an empty draft specification with a fresh identifier.
    pub fn new(title: String) -> (r: Self)
        ensures
            r.id != 0,
            r.title@ == title@,
            r.status == SpecStatus::Draft,
            r.version@ == "1.0.0"@,
            r.baseline is None,
            r.author is None,
            r.tool_version@ == "0.1.0"@,
            r.compliance_profile is None,
            r.user_scenarios@.len() == 0,
            r.functional_requirements@.len() == 0,
            r.key_entities@.len() == 0,
            r.edge_cases@.len() == 0,
            r.success_criteria@.len() == 0,
            r.clarifications_needed@.len() == 0,
            r.validation is None,
            r.source_stories@.len() == 0,
    {
        Specification {
            id: fresh_id(),
            title,
            created_at: now_millis(),
            status: SpecStatus::Draft,
            version: default_version(),
            baseline: None,
            author: None,
            tool_version: default_tool_version(),
            compliance_profile: None,
            user_scenarios: Vec::new(),
            functional_requirements: Vec::new(),
            key_entities: Vec::new(),
            edge_cases: Vec::new(),
            success_criteria: Vec::new(),
            clarifications_needed: Vec::new(),
            validation: None,
            source_stories: Vec::new(),
        }
    }

    /// Whether the specification still has unresolved clarifications.
    pub fn has_unresolved_clarifications(&self) -> (r: bool)
        ensures
            r == spec_has_unresolved(self.clarifications_needed.deep_view()),
    {
        let mut i: usize = 0;
        while i < self.clarifications_needed.len()
            invariant
                i <= self.clarifications_needed@.len(),
                forall|m: int|
                    0 <= m < i ==> self.clarifications_needed.deep_view()[m].resolved,
            decreases self.clarifications_needed@.len() - i,
        {
            if !self.clarifications_needed[i].resolved {
                proof {
                    assert(!self.clarifications_needed.deep_view()[i as int].resolved);
                }
                return true;
            }
            i = i + 1;
        }
        false
    }

    /// Total number of functional requirements.
    pub fn total_requirements(&self) -> (r: usize)
        ensures
            r == self.functional_requirements@.len(),
    {
        self.functional_requirements.len()
    }
}

impl Duplicate for Specification {
    fn duplicate(&self) -> (r: Self) {
        Specification {
            id: self.id,
            title: self.title.clone(),
            created_at: self.created_at,
            status: self.status,
            version: self.version.clone(),
            baseline: dup_opt(&self.baseline),
            author: dup_opt(&self.author),
            tool_version: self.tool_version.clone(),
            compliance_profile: self.compliance_profile,
            user_scenarios: dup_vec(&self.user_scenarios),
            functional_requirements: dup_vec(&self.functional_requirements),
            key_entities: dup_vec(&self.key_entities),
            edge_cases: dup_vec(&self.edge_cases),
            success_criteria: dup_vec(&self.success_criteria),
            clarifications_needed: dup_vec(&self.clarifications_needed),
            validation: dup_opt(&self.validation),
            source_stories: crate::dup::dup_vec_copy(&self.source_stories),
        }
    }
}

} // verus!
