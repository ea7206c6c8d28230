//! Shape of the structured payloads decoded from generated responses, for
//! both pipeline stages. The schema decoder that fills these lives with the
//! caller; the engine only consumes the plain values.

use vstd::prelude::*;

verus! {

// ---------------------------------------------------------------------------
// Refinement payload
// ---------------------------------------------------------------------------

pub struct AcceptanceInputView {
    pub given: Seq<char>,
    pub when: Seq<char>,
    pub then_: Seq<char>,
}

/// One decoded acceptance scenario.
#[derive(Clone, Debug)]
pub struct AcceptanceInput {
    pub given: String,
    pub when: String,
    pub then_: String,
}

impl DeepView for AcceptanceInput {
    type V = AcceptanceInputView;

    open spec fn deep_view(&self) -> AcceptanceInputView {
        AcceptanceInputView { given: self.given@, when: self.when@, then_: self.then_@ }
    }
}

pub struct ScenarioInputView {
    pub id: Seq<char>,
    pub title: Seq<char>,
    pub priority: Seq<char>,
    pub description: Seq<char>,
    pub why_priority: Seq<char>,
    pub independent_test: Seq<char>,
    pub acceptance_scenarios: Seq<AcceptanceInputView>,
}

/// One decoded user scenario.
#[derive(Clone, Debug)]
pub struct ScenarioInput {
    pub id: String,
    pub title: String,
    pub priority: String,
    pub description: String,
    pub why_priority: String,
    pub independent_test: String,
    pub acceptance_scenarios: Vec<AcceptanceInput>,
}

impl DeepView for ScenarioInput {
    type V = ScenarioInputView;

    open spec fn deep_view(&self) -> ScenarioInputView {
        ScenarioInputView {
            id: self.id@,
            title: self.title@,
            priority: self.priority@,
            description: self.description@,
            why_priority: self.why_priority@,
            independent_test: self.independent_test@,
            acceptance_scenarios: self.acceptance_scenarios.deep_view(),
        }
    }
}

pub struct RequirementInputView {
    pub id: Seq<char>,
    pub statement: Seq<char>,
    pub priority: Seq<char>,
    pub category: Seq<char>,
    pub testable: bool,
    pub rationale: Option<Seq<char>>,
    pub source: Option<Seq<char>>,
    pub verification_method: Option<Seq<char>>,
    pub risk_level: Option<Seq<char>>,
    pub parent_requirement: Option<Seq<char>>,
    pub allocated_to: Seq<Seq<char>>,
    pub quality_characteristic: Option<Seq<char>>,
}

/// One decoded functional requirement.
#[derive(Clone, Debug)]
pub struct RequirementInput {
    pub id: String,
    pub statement: String,
    pub priority: String,
    pub category: String,
    pub testable: bool,
    pub rationale: Option<String>,
    pub source: Option<String>,
    pub verification_method: Option<String>,
    pub risk_level: Option<String>,
    pub parent_requirement: Option<String>,
    pub allocated_to: Vec<String>,
    pub quality_characteristic: Option<String>,
}

impl DeepView for RequirementInput {
    type V = RequirementInputView;

    open spec fn deep_view(&self) -> RequirementInputView {
        RequirementInputView {
            id: self.id@,
            statement: self.statement@,
            priority: self.priority@,
            category: self.category@,
            testable: self.testable,
            rationale: self.rationale.deep_view(),
            source: self.source.deep_view(),
            verification_method: self.verification_method.deep_view(),
            risk_level: self.risk_level.deep_view(),
            parent_requirement: self.parent_requirement.deep_view(),
            allocated_to: self.allocated_to.deep_view(),
            quality_characteristic: self.quality_characteristic.deep_view(),
        }
    }
}

pub struct EntityInputView {
    pub name: Seq<char>,
    pub description: Seq<char>,
    pub attributes: Seq<Seq<char>>,
    pub relationships: Seq<Seq<char>>,
}

/// One decoded key entity.
#[derive(Clone, Debug)]
pub struct EntityInput {
    pub name: String,
    pub description: String,
    pub attributes: Vec<String>,
    pub relationships: Vec<String>,
}

impl DeepView for EntityInput {
    type V = EntityInputView;

    open spec fn deep_view(&self) -> EntityInputView {
        EntityInputView {
            name: self.name@,
            description: self.description@,
            attributes: self.attributes.deep_view(),
            relationships: self.relationships.deep_view(),
        }
    }
}

pub struct EdgeInputView {
    pub description: Seq<char>,
    pub related_scenario: Option<Seq<char>>,
    pub severity: Seq<char>,
}

/// One decoded edge case.
#[derive(Clone, Debug)]
pub struct EdgeInput {
    pub description: String,
    pub related_scenario: Option<String>,
    pub severity: String,
}

impl DeepView for EdgeInput {
    type V = EdgeInputView;

    open spec fn deep_view(&self) -> EdgeInputView {
        EdgeInputView {
            description: self.description@,
            related_scenario: self.related_scenario.deep_view(),
            severity: self.severity@,
        }
    }
}

pub struct CriterionInputView {
    pub id: Seq<char>,
    pub description: Seq<char>,
    pub measurable_metric: Seq<char>,
}

/// One decoded success criterion.
#[derive(Clone, Debug)]
pub struct CriterionInput {
    pub id: String,
    pub description: String,
    pub measurable_metric: String,
}

impl DeepView for CriterionInput {
    type V = CriterionInputView;

    open spec fn deep_view(&self) -> CriterionInputView {
        CriterionInputView {
            id: self.id@,
            description: self.description@,
            measurable_metric: self.measurable_metric@,
        }
    }
}

pub struct ClarificationInputView {
    pub question: Seq<char>,
    pub context: Seq<char>,
    pub suggested_options: Seq<Seq<char>>,
    pub impact: Seq<char>,
}

/// One decoded clarification request.
#[derive(Clone, Debug)]
pub struct ClarificationInput {
    pub question: String,
    pub context: String,
    pub suggested_options: Vec<String>,
    pub impact: String,
}

impl DeepView for ClarificationInput {
    type V = ClarificationInputView;

    open spec fn deep_view(&self) -> ClarificationInputView {
        ClarificationInputView {
            question: self.question@,
            context: self.context@,
            suggested_options: self.suggested_options.deep_view(),
            impact: self.impact@,
        }
    }
}

pub struct RefineOutputView {
    pub user_scenarios: Seq<ScenarioInputView>,
    pub functional_requirements: Seq<RequirementInputView>,
    pub key_entities: Seq<EntityInputView>,
    pub edge_cases: Seq<EdgeInputView>,
    pub success_criteria: Seq<CriterionInputView>,
    pub clarifications_needed: Seq<ClarificationInputView>,
}

/// The decoded payload of one refinement exchange.
#[derive(Clone, Debug)]
pub struct RefineOutput {
    pub user_scenarios: Vec<ScenarioInput>,
    pub functional_requirements: Vec<RequirementInput>,
    pub key_entities: Vec<EntityInput>,
    pub edge_cases: Vec<EdgeInput>,
    pub success_criteria: Vec<CriterionInput>,
    pub clarifications_needed: Vec<ClarificationInput>,
}

impl DeepView for RefineOutput {
    type V = RefineOutputView;

    open spec fn deep_view(&self) -> RefineOutputView {
        RefineOutputView {
            user_scenarios: self.user_scenarios.deep_view(),
            functional_requirements: self.functional_requirements.deep_view(),
            key_entities: self.key_entities.deep_view(),
            edge_cases: self.edge_cases.deep_view(),
            success_criteria: self.success_criteria.deep_view(),
            clarifications_needed: self.clarifications_needed.deep_view(),
        }
    }
}

// ---------------------------------------------------------------------------
// Test-generation payload
// ---------------------------------------------------------------------------

pub struct StepInputView {
    pub keyword: Seq<char>,
    pub text: Seq<char>,
    pub doc_string: Option<Seq<char>>,
    pub data_table: Option<Seq<Seq<Seq<char>>>>,
}

/// One decoded Gherkin step.
#[derive(Clone, Debug)]
pub struct StepInput {
    pub keyword: String,
    pub text: String,
    pub doc_string: Option<String>,
    pub data_table: Option<Vec<Vec<String>>>,
}

impl DeepView for StepInput {
    type V = StepInputView;

    open spec fn deep_view(&self) -> StepInputView {
        StepInputView {
            keyword: self.keyword@,
            text: self.text@,
            doc_string: self.doc_string.deep_view(),
            data_table: self.data_table.deep_view(),
        }
    }
}

pub struct ExamplesInputView {
    pub headers: Seq<Seq<char>>,
    pub rows: Seq<Seq<Seq<char>>>,
}

/// One decoded examples table.
#[derive(Clone, Debug)]
pub struct ExamplesInput {
    pub headers: Vec<String>,
    pub rows: Vec<Vec<String>>,
}

impl DeepView for ExamplesInput {
    type V = ExamplesInputView;

    open spec fn deep_view(&self) -> ExamplesInputView {
        ExamplesInputView { headers: self.headers.deep_view(), rows: self.rows.deep_view() }
    }
}

pub struct GherkinScenarioInputView {
    pub name: Seq<char>,
    pub tags: Seq<Seq<char>>,
    pub scenario_type: Seq<char>,
    pub steps: Seq<StepInputView>,
    pub examples: Option<ExamplesInputView>,
    pub test_data_suggestions: Seq<Seq<char>>,
    pub verification_of: Seq<Seq<char>>,
    pub coverage_technique: Option<Seq<char>>,
}

/// One decoded Gherkin scenario.
#[derive(Clone, Debug)]
pub struct GherkinScenarioInput {
    pub name: String,
    pub tags: Vec<String>,
    pub scenario_type: String,
    pub steps: Vec<StepInput>,
    pub examples: Option<ExamplesInput>,
    pub test_data_suggestions: Vec<String>,
    pub verification_of: Vec<String>,
    pub coverage_technique: Option<String>,
}

impl DeepView for GherkinScenarioInput {
    type V = GherkinScenarioInputView;

    open spec fn deep_view(&self) -> GherkinScenarioInputView {
        GherkinScenarioInputView {
            name: self.name@,
            tags: self.tags.deep_view(),
            scenario_type: self.scenario_type@,
            steps: self.steps.deep_view(),
            examples: self.examples.deep_view(),
            test_data_suggestions: self.test_data_suggestions.deep_view(),
            verification_of: self.verification_of.deep_view(),
            coverage_technique: self.coverage_technique.deep_view(),
        }
    }
}

pub struct FeatureInputView {
    pub name: Seq<char>,
    pub description: Seq<char>,
    pub tags: Seq<Seq<char>>,
    pub background: Option<Seq<StepInputView>>,
    pub scenarios: Seq<GherkinScenarioInputView>,
    pub source_scenario_ids: Seq<Seq<char>>,
    pub covered_requirements: Seq<Seq<char>>,
    pub test_level: Option<Seq<char>>,
}

/// One decoded feature.
#[derive(Clone, Debug)]
pub struct FeatureInput {
    pub name: String,
    pub description: String,
    pub tags: Vec<String>,
    pub background: Option<Vec<StepInput>>,
    pub scenarios: Vec<GherkinScenarioInput>,
    pub source_scenario_ids: Vec<String>,
    pub covered_requirements: Vec<String>,
    pub test_level: Option<String>,
}

impl DeepView for FeatureInput {
    type V = FeatureInputView;

    open spec fn deep_view(&self) -> FeatureInputView {
        FeatureInputView {
            name: self.name@,
            description: self.description@,
            tags: self.tags.deep_view(),
            background: self.background.deep_view(),
            scenarios: self.scenarios.deep_view(),
            source_scenario_ids: self.source_scenario_ids.deep_view(),
            covered_requirements: self.covered_requirements.deep_view(),
            test_level: self.test_level.deep_view(),
        }
    }
}

pub struct TestOutputView {
    pub features: Seq<FeatureInputView>,
}

/// The decoded payload of one test-generation exchange.
#[derive(Clone, Debug)]
pub struct TestOutput {
    pub features: Vec<FeatureInput>,
}

impl DeepView for TestOutput {
    type V = TestOutputView;

    open spec fn deep_view(&self) -> TestOutputView {
        TestOutputView { features: self.features.deep_view() }
    }
}

} // verus!
