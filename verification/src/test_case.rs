//! Generated test artifacts: Gherkin features, scenarios and steps, together
//! with the coverage metrics of a test suite.

use vstd::prelude::*;

use crate::dup::{dup_opt, dup_vec, push_string, Duplicate};
use crate::ids::fresh_id;
use crate::textutil::{seq_contains_str, sorted_unique, spec_strictly_sorted};

verus! {

/// Test level of a feature.
#[derive(Clone, Copy, Debug, PartialEq, Eq, Structural)]
pub enum TestLevel {
    Unit,
    Integration,
    System,
    Acceptance,
}

impl DeepView for TestLevel {
    type V = TestLevel;

    open spec fn deep_view(&self) -> TestLevel {
        *self
    }
}

impl Default for TestLevel {
    fn default() -> (r: Self)
        ensures
            r == TestLevel::Acceptance,
    {
        TestLevel::Acceptance
    }
}

impl TestLevel {
    pub fn label(&self) -> (r: &'static str)
        ensures
            *self == TestLevel::Unit ==> r@ == "Unit"@,
            *self == TestLevel::Integration ==> r@ == "Integration"@,
            *self == TestLevel::System ==> r@ == "System"@,
            *self == TestLevel::Acceptance ==> r@ == "Acceptance"@,
    {
        match self {
            TestLevel::Unit => "Unit",
            TestLevel::Integration => "Integration",
            TestLevel::System => "System",
            TestLevel::Acceptance => "Acceptance",
        }
    }
}

/// Test coverage technique behind a scenario.
#[derive(Clone, Copy, Debug, PartialEq, Eq, Hash, Structural)]
pub enum CoverageTechnique {
    EquivalencePartitioning,
    BoundaryValueAnalysis,
    DecisionTable,
    StateTransition,
    ErrorGuessing,
}

impl DeepView for CoverageTechnique {
    type V = CoverageTechnique;

    open spec fn deep_view(&self) -> CoverageTechnique {
        *self
    }
}

impl CoverageTechnique {
    pub fn label(&self) -> (r: &'static str)
        ensures
            *self == CoverageTechnique::EquivalencePartitioning ==> r@ == "EP"@,
            *self == CoverageTechnique::BoundaryValueAnalysis ==> r@ == "BVA"@,
            *self == CoverageTechnique::DecisionTable ==> r@ == "DT"@,
            *self == CoverageTechnique::StateTransition ==> r@ == "ST"@,
            *self == CoverageTechnique::ErrorGuessing ==> r@ == "EG"@,
    {
        match self {
            CoverageTechnique::EquivalencePartitioning => "EP",
            CoverageTechnique::BoundaryValueAnalysis => "BVA",
            CoverageTechnique::DecisionTable => "DT",
            CoverageTechnique::StateTransition => "ST",
            CoverageTechnique::ErrorGuessing => "EG",
        }
    }
}

/// Kind of scenario.
#[derive(Clone, Copy, Debug, PartialEq, Eq, Structural)]
pub enum ScenarioType {
    HappyPath,
    EdgeCase,
    ErrorScenario,
    BoundaryCondition,
}

impl DeepView for ScenarioType {
    type V = ScenarioType;

    open spec fn deep_view(&self) -> ScenarioType {
        *self
    }
}

impl ScenarioType {
    pub fn label(&self) -> (r: &'static str)
        ensures
            *self == ScenarioType::HappyPath ==> r@ == "happy_path"@,
            *self == ScenarioType::EdgeCase ==> r@ == "edge_case"@,
            *self == ScenarioType::ErrorScenario ==> r@ == "error"@,
            *self == ScenarioType::BoundaryCondition ==> r@ == "boundary"@,
    {
        match self {
            ScenarioType::HappyPath => "happy_path",
            ScenarioType::EdgeCase => "edge_case",
            ScenarioType::ErrorScenario => "error",
            ScenarioType::BoundaryCondition => "boundary",
        }
    }
}

/// Gherkin step keyword.
#[derive(Clone, Copy, Debug, PartialEq, Eq, Structural)]
pub enum StepKeyword {
    Given,
    When,
    Then,
    And,
    But,
}

impl DeepView for StepKeyword {
    type V = StepKeyword;

    open spec fn deep_view(&self) -> StepKeyword {
        *self
    }
}

impl StepKeyword {
    /// French Gherkin keyword.
    pub fn to_french(self) -> (r: &'static str)
        ensures
            self == StepKeyword::Given ==> r@ == "Soit"@,
            self == StepKeyword::When ==> r@ == "Quand"@,
            self == StepKeyword::Then ==> r@ == "Alors"@,
            self == StepKeyword::And ==> r@ == "Et"@,
            self == StepKeyword::But ==> r@ == "Mais"@,
    {
        match self {
            StepKeyword::Given => "Soit",
            StepKeyword::When => "Quand",
            StepKeyword::Then => "Alors",
            StepKeyword::And => "Et",
            StepKeyword::But => "Mais",
        }
    }

    /// English Gherkin keyword.
    pub fn to_english(self) -> (r: &'static str)
        ensures
            self == StepKeyword::Given ==> r@ == "Given"@,
            self == StepKeyword::When ==> r@ == "When"@,
            self == StepKeyword::Then ==> r@ == "Then"@,
            self == StepKeyword::And ==> r@ == "And"@,
            self == StepKeyword::But ==> r@ == "But"@,
    {
        match self {
            StepKeyword::Given => "Given",
            StepKeyword::When => "When",
            StepKeyword::Then => "Then",
            StepKeyword::And => "And",
            StepKeyword::But => "But",
        }
    }
}

/// Mathematical model of a `Step`.
pub struct StepView {
    pub keyword: StepKeyword,
    pub text: Seq<char>,
    pub doc_string: Option<Seq<char>>,
    pub data_table: Option<Seq<Seq<Seq<char>>>>,
}

/// One Gherkin step.
#[derive(Clone, Debug)]
pub struct Step {
    pub keyword: StepKeyword,
    pub text: String,
    pub doc_string: Option<String>,
    pub data_table: Option<Vec<Vec<String>>>,
}

impl DeepView for Step {
    type V = StepView;

    open spec fn deep_view(&self) -> StepView {
        StepView {
            keyword: self.keyword,
            text: self.text@,
            doc_string: self.doc_string.deep_view(),
            data_table: self.data_table.deep_view(),
        }
    }
}

fn dup_table(v: &Option<Vec<Vec<String>>>) -> (r: Option<Vec<Vec<String>>>)
    ensures
        r.deep_view() == v.deep_view(),
{
    match v {
        Some(rows) => {
            let mut out: Vec<Vec<String>> = Vec::new();
            let mut i: usize = 0;
            while i < rows.len()
                invariant
                    i <= rows@.len(),
                    out@.len() == i,
                    forall|k: int| 0 <= k < i ==> out.deep_view()[k] == rows.deep_view()[k],
                decreases rows@.len() - i,
            {
                let elem = dup_vec(&rows[i]);
                let ghost ev = elem.deep_view();
                let ghost pre = out.deep_view();
                proof {
                    assert(ev == rows.deep_view()[i as int]);
                }
                out.push(elem);
                i = i + 1;
                proof {
                    assert forall|k: int|
                        0 <= k < i implies out.deep_view()[k] == rows.deep_view()[k] by {
                        if k < i - 1 {
                            assert(out.deep_view()[k] == pre[k]);
                        } else {
                            assert(out.deep_view()[k] == ev);
                        }
                    }
                }
            }
            proof {
                assert(out.deep_view() =~= rows.deep_view());
            }
            Some(out)
        },
        None => None,
    }
}

impl Duplicate for Step {
    fn duplicate(&self) -> (r: Self) {
        Step {
            keyword: self.keyword,
            text: self.text.clone(),
            doc_string: dup_opt(&self.doc_string),
            data_table: dup_table(&self.data_table),
        }
    }
}

/// Mathematical model of an `Examples` table.
pub struct ExamplesView {
    pub headers: Seq<Seq<char>>,
    pub rows: Seq<Seq<Seq<char>>>,
}

/// Examples table of a scenario outline.
#[derive(Clone, Debug)]
pub struct Examples {
    pub headers: Vec<String>,
    pub rows: Vec<Vec<String>>,
}

impl DeepView for Examples {
    type V = ExamplesView;

    open spec fn deep_view(&self) -> ExamplesView {
        ExamplesView { headers: self.headers.deep_view(), rows: self.rows.deep_view() }
    }
}

/// Mathematical model of a `Background`.
pub struct BackgroundView {
    pub steps: Seq<StepView>,
}

/// Gherkin background section.
#[derive(Clone, Debug)]
pub struct Background {
    pub steps: Vec<Step>,
}

impl DeepView for Background {
    type V = BackgroundView;

    open spec fn deep_view(&self) -> BackgroundView {
        BackgroundView { steps: self.steps.deep_view() }
    }
}

/// Mathematical model of a `Scenario`.
pub struct ScenarioView {
    pub name: Seq<char>,
    pub tags: Seq<Seq<char>>,
    pub scenario_type: ScenarioType,
    pub steps: Seq<StepView>,
    pub examples: Option<ExamplesView>,
    pub test_data_suggestions: Seq<Seq<char>>,
    pub verification_of: Seq<Seq<char>>,
    pub coverage_technique: Option<CoverageTechnique>,
}

/// One Gherkin scenario (or scenario outline).
#[derive(Clone, Debug)]
pub struct Scenario {
    pub name: String,
    pub tags: Vec<String>,
    pub scenario_type: ScenarioType,
    pub steps: Vec<Step>,
    /// Examples table, for scenario outlines.
    pub examples: Option<Examples>,
    pub test_data_suggestions: Vec<String>,
    /// Identifiers of the requirements this scenario verifies.
    pub verification_of: Vec<String>,
    pub coverage_technique: Option<CoverageTechnique>,
}

impl DeepView for Scenario {
    type V = ScenarioView;

    open spec fn deep_view(&self) -> ScenarioView {
        ScenarioView {
            name: self.name@,
            tags: self.tags.deep_view(),
            scenario_type: self.scenario_type,
            steps: self.steps.deep_view(),
            examples: self.examples.deep_view(),
            test_data_suggestions: self.test_data_suggestions.deep_view(),
            verification_of: self.verification_of.deep_view(),
            coverage_technique: self.coverage_technique,
        }
    }
}

/// Mathematical model of a `Feature`.
pub struct FeatureView {
    pub id: u128,
    pub name: Seq<char>,
    pub description: Seq<char>,
    pub tags: Seq<Seq<char>>,
    pub background: Option<BackgroundView>,
    pub scenarios: Seq<ScenarioView>,
    pub source_scenario_ids: Seq<Seq<char>>,
    pub covered_requirements: Seq<Seq<char>>,
    pub test_level: TestLevel,
}

/// One Gherkin feature.
#[derive(Clone, Debug)]
pub struct Feature {
    /// Unique identifier (a 128-bit UUID value).
    pub id: u128,
    pub name: String,
    pub description: String,
    pub tags: Vec<String>,
    pub background: Option<Background>,
    pub scenarios: Vec<Scenario>,
    /// Identifiers of the source user scenarios.
    pub source_scenario_ids: Vec<String>,
    /// Identifiers of the requirements the feature covers.
    pub covered_requirements: Vec<String>,
    pub test_level: TestLevel,
}

impl DeepView for Feature {
    type V = FeatureView;

    open spec fn deep_view(&self) -> FeatureView {
        FeatureView {
            id: self.id,
            name: self.name@,
            description: self.description@,
            tags: self.tags.deep_view(),
            background: self.background.deep_view(),
            scenarios: self.scenarios.deep_view(),
            source_scenario_ids: self.source_scenario_ids.deep_view(),
            covered_requirements: self.covered_requirements.deep_view(),
            test_level: self.test_level,
        }
    }
}

impl Feature {
    /// Creates an empty feature with a fresh identifier.
    pub fn new(name: String, description: String) -> (r: Self)
        ensures
            r.id != 0,
            r.name@ == name@,
            r.description@ == description@,
            r.tags@.len() == 0,
            r.background is None,
            r.scenarios@.len() == 0,
            r.source_scenario_ids@.len() == 0,
            r.covered_requirements@.len() == 0,
            r.test_level == TestLevel::Acceptance,
    {
        Feature {
            id: fresh_id(),
            name,
            description,
            tags: Vec::new(),
            background: None,
            scenarios: Vec::new(),
            source_scenario_ids: Vec::new(),
            covered_requirements: Vec::new(),
            test_level: TestLevel::Acceptance,
        }
    }
}

// ---------------------------------------------------------------------------
// Test suite and its coverage
// ---------------------------------------------------------------------------

/// Mathematical model of a `ScenarioCounts`.
pub struct ScenarioCountsView {
    pub happy_path: usize,
    pub edge_case: usize,
    pub error_scenario: usize,
    pub boundary: usize,
}

/// Scenario counters, one per scenario type.
#[derive(Clone, Debug, Default)]
pub struct ScenarioCounts {
    pub happy_path: usize,
    pub edge_case: usize,
    pub error_scenario: usize,
    pub boundary: usize,
}

impl DeepView for ScenarioCounts {
    type V = ScenarioCountsView;

    open spec fn deep_view(&self) -> ScenarioCountsView {
        ScenarioCountsView {
            happy_path: self.happy_path,
            edge_case: self.edge_case,
            error_scenario: self.error_scenario,
            boundary: self.boundary,
        }
    }
}

/// Mathematical model of a `TestCoverage`.
pub struct TestCoverageView {
    pub requirements_covered: Seq<Seq<char>>,
    pub requirements_total: usize,
    pub coverage_percentage: u64,
    pub scenarios_by_type: ScenarioCountsView,
}

/// Coverage metrics of a test suite.
#[derive(Clone, Debug)]
pub struct TestCoverage {
    /// Identifiers of the covered requirements, first occurrence kept.
    pub requirements_covered: Vec<String>,
    pub requirements_total: usize,
    /// Integer percentage of covered requirements.
    pub coverage_percentage: u64,
    pub scenarios_by_type: ScenarioCounts,
}

impl DeepView for TestCoverage {
    type V = TestCoverageView;

    open spec fn deep_view(&self) -> TestCoverageView {
        TestCoverageView {
            requirements_covered: self.requirements_covered.deep_view(),
            requirements_total: self.requirements_total,
            coverage_percentage: self.coverage_percentage,
            scenarios_by_type: self.scenarios_by_type.deep_view(),
        }
    }
}

/// Mathematical model of a `TestSuite`.
pub struct TestSuiteView {
    pub features: Seq<FeatureView>,
    pub source_spec_id: u128,
    pub total_scenarios: usize,
    pub coverage: TestCoverageView,
}

/// The complete set of generated features for one specification.
#[derive(Clone, Debug)]
pub struct TestSuite {
    pub features: Vec<Feature>,
    /// Identifier of the source specification.
    pub source_spec_id: u128,
    pub total_scenarios: usize,
    pub coverage: TestCoverage,
}

impl DeepView for TestSuite {
    type V = TestSuiteView;

    open spec fn deep_view(&self) -> TestSuiteView {
        TestSuiteView {
            features: self.features.deep_view(),
            source_spec_id: self.source_spec_id,
            total_scenarios: self.total_scenarios,
            coverage: self.coverage.deep_view(),
        }
    }
}

/// The requirement identifiers a sequence of scenarios declares to verify,
/// concatenated in order.
pub open spec fn spec_scenarios_verifs(ss: Seq<ScenarioView>) -> Seq<Seq<char>>
    decreases ss.len(),
{
    if ss.len() == 0 {
        Seq::<Seq<char>>::empty()
    } else {
        ss[0].verification_of + spec_scenarios_verifs(ss.drop_first())
    }
}

/// The raw covered-requirement list of a sequence of features: each feature's
/// own list followed by its scenarios' `verification_of` lists.
pub open spec fn spec_covered_ids(fs: Seq<FeatureView>) -> Seq<Seq<char>>
    decreases fs.len(),
{
    if fs.len() == 0 {
        Seq::<Seq<char>>::empty()
    } else {
        fs[0].covered_requirements + spec_scenarios_verifs(fs[0].scenarios) + spec_covered_ids(
            fs.drop_first(),
        )
    }
}

/// The scenario types of a sequence of features, in order.
pub open spec fn spec_all_types(fs: Seq<FeatureView>) -> Seq<ScenarioType>
    decreases fs.len(),
{
    if fs.len() == 0 {
        Seq::<ScenarioType>::empty()
    } else {
        fs[0].scenarios.map_values(|s: ScenarioView| s.scenario_type) + spec_all_types(
            fs.drop_first(),
        )
    }
}

/// How many entries of the sequence have the given type.
pub open spec fn spec_count_t(ts: Seq<ScenarioType>, t: ScenarioType) -> nat
    decreases ts.len(),
{
    if ts.len() == 0 {
        0
    } else {
        (if ts[0] == t {
            1nat
        } else {
            0nat
        }) + spec_count_t(ts.drop_first(), t)
    }
}

/// Integer coverage percentage: covered out of total, floored; 0 of 0 is 0.
pub open spec fn spec_percentage(covered: nat, total: nat) -> nat {
    if total == 0 {
        0
    } else {
        covered * 100 / total
    }
}

/// A `nat` capped to the `u64` range.
pub open spec fn spec_cap_u64(n: nat) -> u64 {
    if n > u64::MAX {
        u64::MAX
    } else {
        n as u64
    }
}

/// The covered-requirement identifiers one feature contributes: its own list,
/// then its scenarios' `verification_of` lists.
pub fn feature_covered_ids(f: &Feature) -> (r: Vec<String>)
    ensures
        r.deep_view() == f.deep_view().covered_requirements + spec_scenarios_verifs(
            f.deep_view().scenarios,
        ),
{
    let ghost fv = f.deep_view();
    let mut r: Vec<String> = Vec::new();
    let mut k: usize = 0;
    while k < f.covered_requirements.len()
        invariant
            k <= f.covered_requirements@.len(),
            fv == f.deep_view(),
            r.deep_view() =~= fv.covered_requirements.take(k as int),
        decreases f.covered_requirements@.len() - k,
    {
        push_string(&mut r, &f.covered_requirements[k]);
        k = k + 1;
        proof {
            assert(r.deep_view() =~= fv.covered_requirements.take(k as int));
        }
    }
    proof {
        assert(fv.covered_requirements.take(fv.covered_requirements.len() as int)
            =~= fv.covered_requirements);
    }
    let mut j: usize = 0;
    proof {
        assert(fv.scenarios.skip(0) =~= fv.scenarios);
    }
    while j < f.scenarios.len()
        invariant
            j <= f.scenarios@.len(),
            fv == f.deep_view(),
            r.deep_view() + spec_scenarios_verifs(fv.scenarios.skip(j as int))
                =~= fv.covered_requirements + spec_scenarios_verifs(fv.scenarios),
        decreases f.scenarios@.len() - j,
    {
        let ghost srem = fv.scenarios.skip(j as int);
        proof {
            assert(srem[0] == fv.scenarios[j as int]);
            assert(srem.drop_first() =~= fv.scenarios.skip(j + 1));
        }
        let sc = &f.scenarios[j];
        let ghost verifs = sc.deep_view().verification_of;
        let ghost base = r.deep_view();
        let mut m: usize = 0;
        while m < sc.verification_of.len()
            invariant
                m <= sc.verification_of@.len(),
                verifs == sc.deep_view().verification_of,
                r.deep_view() =~= base + verifs.take(m as int),
            decreases sc.verification_of@.len() - m,
        {
            push_string(&mut r, &sc.verification_of[m]);
            m = m + 1;
            proof {
                assert(r.deep_view() =~= base + verifs.take(m as int));
            }
        }
        j = j + 1;
        proof {
            assert(verifs.take(verifs.len() as int) =~= verifs);
            assert(r.deep_view() + spec_scenarios_verifs(fv.scenarios.skip(j as int))
                =~= fv.covered_requirements + spec_scenarios_verifs(fv.scenarios));
        }
    }
    proof {
        assert(spec_scenarios_verifs(fv.scenarios.skip(fv.scenarios.len() as int))
            =~= Seq::<Seq<char>>::empty());
        assert(r.deep_view() =~= fv.covered_requirements + spec_scenarios_verifs(fv.scenarios));
    }
    r
}

/// The scenario types of one feature, in order.
fn feature_types(f: &Feature) -> (r: Vec<ScenarioType>)
    ensures
        r@ == f.deep_view().scenarios.map_values(|s: ScenarioView| s.scenario_type),
{
    let ghost fv = f.deep_view();
    let mut r: Vec<ScenarioType> = Vec::new();
    let mut j: usize = 0;
    while j < f.scenarios.len()
        invariant
            j <= f.scenarios@.len(),
            fv == f.deep_view(),
            r@ =~= fv.scenarios.map_values(|s: ScenarioView| s.scenario_type).take(j as int),
        decreases f.scenarios@.len() - j,
    {
        r.push(f.scenarios[j].scenario_type);
        j = j + 1;
        proof {
            assert(r@ =~= fv.scenarios.map_values(|s: ScenarioView| s.scenario_type).take(
                j as int,
            ));
        }
    }
    proof {
        assert(fv.scenarios.map_values(|s: ScenarioView| s.scenario_type).take(
            fv.scenarios.len() as int,
        ) =~= fv.scenarios.map_values(|s: ScenarioView| s.scenario_type));
    }
    r
}

/// Counts the entries of a given type.
fn count_type(ts: &Vec<ScenarioType>, t: ScenarioType) -> (r: usize)
    ensures
        r == spec_count_t(ts@, t),
{
    let mut count: usize = 0;
    let mut i: usize = 0;
    proof {
        assert(ts@.skip(0) =~= ts@);
    }
    while i < ts.len()
        invariant
            i <= ts@.len(),
            count <= i,
            count + spec_count_t(ts@.skip(i as int), t) == spec_count_t(ts@, t),
        decreases ts@.len() - i,
    {
        let ghost rem = ts@.skip(i as int);
        proof {
            assert(rem[0] == ts@[i as int]);
            assert(rem.drop_first() =~= ts@.skip(i + 1));
        }
        if ts[i] == t {
            count = count + 1;
        }
        i = i + 1;
    }
    proof {
        assert(ts@.skip(ts@.len() as int) =~= Seq::<ScenarioType>::empty());
    }
    count
}

/// The coverage fields are exactly what a recomputation over the features
/// gives: the covered identifiers sorted (by code point) with duplicates
/// removed, the integer coverage percentage, the scenario total and the
/// per-type counters.
pub open spec fn spec_coverage_fresh(tv: TestSuiteView, total_requirements: usize) -> bool {
    &&& tv.total_scenarios == spec_all_types(tv.features).len()
    &&& spec_strictly_sorted(tv.coverage.requirements_covered)
    &&& (forall|s: Seq<char>|
        seq_contains_str(tv.coverage.requirements_covered, s) == seq_contains_str(
            spec_covered_ids(tv.features),
            s,
        ))
    &&& tv.coverage.requirements_total == total_requirements
    &&& tv.coverage.coverage_percentage == spec_cap_u64(
        spec_percentage(tv.coverage.requirements_covered.len(), total_requirements as nat),
    )
    &&& tv.coverage.scenarios_by_type.happy_path == spec_count_t(
        spec_all_types(tv.features),
        ScenarioType::HappyPath,
    )
    &&& tv.coverage.scenarios_by_type.edge_case == spec_count_t(
        spec_all_types(tv.features),
        ScenarioType::EdgeCase,
    )
    &&& tv.coverage.scenarios_by_type.error_scenario == spec_count_t(
        spec_all_types(tv.features),
        ScenarioType::ErrorScenario,
    )
    &&& tv.coverage.scenarios_by_type.boundary == spec_count_t(
        spec_all_types(tv.features),
        ScenarioType::BoundaryCondition,
    )
}

impl TestSuite {
    /// Recomputes the coverage metrics from the features: the covered
    /// requirement identifiers as a sorted, duplicate-free list, the integer
    /// coverage percentage, the total scenario count and the per-type
    /// counters.
    pub fn compute_coverage(&mut self, total_requirements: usize)
        ensures
            final(self).features == old(self).features,
            final(self).source_spec_id == old(self).source_spec_id,
            spec_coverage_fresh(final(self).deep_view(), total_requirements),
    {
        let ghost fs = self.features.deep_view();
        let mut covered_raw: Vec<String> = Vec::new();
        let mut types: Vec<ScenarioType> = Vec::new();
        let mut i: usize = 0;
        proof {
            assert(fs.skip(0) =~= fs);
            assert(covered_raw.deep_view() + spec_covered_ids(fs) =~= spec_covered_ids(fs));
            assert(types@ + spec_all_types(fs) =~= spec_all_types(fs));
        }
        while i < self.features.len()
            invariant
                i <= self.features@.len(),
                fs == self.features.deep_view(),
                covered_raw.deep_view() + spec_covered_ids(fs.skip(i as int)) =~= spec_covered_ids(
                    fs,
                ),
                types@ + spec_all_types(fs.skip(i as int)) =~= spec_all_types(fs),
            decreases self.features@.len() - i,
        {
            let ghost rem = fs.skip(i as int);
            proof {
                assert(rem[0] == fs[i as int]);
                assert(rem.drop_first() =~= fs.skip(i + 1));
            }
            let mut chunk = feature_covered_ids(&self.features[i]);
            covered_raw.append(&mut chunk);
            let mut tchunk = feature_types(&self.features[i]);
            types.append(&mut tchunk);
            i = i + 1;
            proof {
                assert(covered_raw.deep_view() + spec_covered_ids(fs.skip(i as int))
                    =~= spec_covered_ids(fs));
                assert(types@ + spec_all_types(fs.skip(i as int)) =~= spec_all_types(fs));
            }
        }
        proof {
            assert(fs.skip(fs.len() as int) =~= Seq::<FeatureView>::empty());
            assert(covered_raw.deep_view() =~= spec_covered_ids(fs));
            assert(types@ =~= spec_all_types(fs));
        }
        let covered = sorted_unique(&covered_raw);
        let percentage: u64 = if total_requirements == 0 {
            0
        } else {
            let q: u128 = covered.len() as u128 * 100 / (total_requirements as u128);
            if q > u64::MAX as u128 {
                u64::MAX
            } else {
                q as u64
            }
        };
        let counts = ScenarioCounts {
            happy_path: count_type(&types, ScenarioType::HappyPath),
            edge_case: count_type(&types, ScenarioType::EdgeCase),
            error_scenario: count_type(&types, ScenarioType::ErrorScenario),
            boundary: count_type(&types, ScenarioType::BoundaryCondition),
        };
        self.total_scenarios = types.len();
        self.coverage = TestCoverage {
            requirements_covered: covered,
            requirements_total: total_requirements,
            coverage_percentage: percentage,
            scenarios_by_type: counts,
        };
    }
}

} // verus!
