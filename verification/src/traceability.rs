//! Traceability builder: for each requirement, the artifacts that cover it
//! (by explicit verification link or by a matching tag), its coverage
//! status, the orphan artifacts, the aggregate counts and the compliance
//! notes. The whole matrix is a pure function of the specification and the
//! test suite: rebuilding it on the same inputs gives the same result.

use vstd::prelude::*;
use vstd::string::*;

use crate::specification::{ComplianceProfile, DalLevel, FunctionalRequirement,
    FunctionalRequirementView, RiskLevel, SilLevel, Specification, SpecificationView, SsilLevel,
    SwClass, VerificationMethod};
use crate::story::Priority;
use crate::test_case::{CoverageTechnique, FeatureView, ScenarioView, TestSuite, TestSuiteView};
use crate::textutil::{chars_to_string, contains_sub, dedup_strings, push_u64_digits,
    seq_contains_str, spec_fold_lower, spec_contains, spec_dedup_strs, spec_digits,
    string_eq_str, to_chars, fold_lower};

verus! {

// ---------------------------------------------------------------------------
// Types
// ---------------------------------------------------------------------------

/// Coverage status of one requirement.
#[derive(Clone, Copy, Debug, PartialEq, Eq, Structural)]
pub enum TraceabilityStatus {
    /// Covered by enough scenarios.
    FullyCovered,
    /// Covered, but not deeply enough (a top-priority requirement with a
    /// single scenario).
    PartiallyCovered,
    /// No coverage at all.
    NotCovered,
    /// Verified by analysis instead of testing.
    VerifiedByAnalysis,
    /// Verified by inspection instead of testing.
    VerifiedByInspection,
    /// Verified by demonstration instead of testing.
    VerifiedByDemo,
}

impl DeepView for TraceabilityStatus {
    type V = TraceabilityStatus;

    open spec fn deep_view(&self) -> TraceabilityStatus {
        *self
    }
}

impl TraceabilityStatus {
    pub fn label(&self) -> (r: &'static str)
        ensures
            *self == TraceabilityStatus::FullyCovered ==> r@ == "Couvert"@,
            *self == TraceabilityStatus::PartiallyCovered ==> r@ == "Partiel"@,
            *self == TraceabilityStatus::NotCovered ==> r@ == "GAP"@,
            *self == TraceabilityStatus::VerifiedByAnalysis ==> r@ == "Analyse"@,
            *self == TraceabilityStatus::VerifiedByInspection ==> r@ == "Inspection"@,
            *self == TraceabilityStatus::VerifiedByDemo ==> r@ == "Demo"@,
    {
        match self {
            TraceabilityStatus::FullyCovered => "Couvert",
            TraceabilityStatus::PartiallyCovered => "Partiel",
            TraceabilityStatus::NotCovered => "GAP",
            TraceabilityStatus::VerifiedByAnalysis => "Analyse",
            TraceabilityStatus::VerifiedByInspection => "Inspection",
            TraceabilityStatus::VerifiedByDemo => "Demo",
        }
    }
}

/// Conformance verdict of one compliance note.
#[derive(Clone, Copy, Debug, PartialEq, Eq, Structural)]
pub enum ComplianceStatus {
    Compliant,
    PartiallyCompliant,
    NonCompliant,
}

impl DeepView for ComplianceStatus {
    type V = ComplianceStatus;

    open spec fn deep_view(&self) -> ComplianceStatus {
        *self
    }
}

impl ComplianceStatus {
    pub fn label(&self) -> (r: &'static str)
        ensures
            *self == ComplianceStatus::Compliant ==> r@ == "Conforme"@,
            *self == ComplianceStatus::PartiallyCompliant ==> r@ == "Partiellement conforme"@,
            *self == ComplianceStatus::NonCompliant ==> r@ == "Non conforme"@,
    {
        match self {
            ComplianceStatus::Compliant => "Conforme",
            ComplianceStatus::PartiallyCompliant => "Partiellement conforme",
            ComplianceStatus::NonCompliant => "Non conforme",
        }
    }
}

/// Mathematical model of a `TraceabilityEntry`.
pub struct TraceabilityEntryView {
    pub requirement_id: Seq<char>,
    pub statement: Seq<char>,
    pub priority: Priority,
    pub risk_level: Option<RiskLevel>,
    pub source_stories: Seq<Seq<char>>,
    pub verification_method: VerificationMethod,
    pub covering_features: Seq<Seq<char>>,
    pub covering_scenarios: Seq<Seq<char>>,
    pub coverage_techniques: Seq<CoverageTechnique>,
    pub status: TraceabilityStatus,
}

/// One row of the traceability matrix (one per requirement).
#[derive(Clone, Debug)]
pub struct TraceabilityEntry {
    pub requirement_id: String,
    pub statement: String,
    pub priority: Priority,
    pub risk_level: Option<RiskLevel>,
    /// Identifiers of the user scenarios named by the requirement's source.
    pub source_stories: Vec<String>,
    pub verification_method: VerificationMethod,
    /// Names of the features holding a covering scenario (first occurrence
    /// kept).
    pub covering_features: Vec<String>,
    /// Names of the covering scenarios, in order.
    pub covering_scenarios: Vec<String>,
    /// Techniques of the covering scenarios (first occurrence kept).
    pub coverage_techniques: Vec<CoverageTechnique>,
    pub status: TraceabilityStatus,
}

impl DeepView for TraceabilityEntry {
    type V = TraceabilityEntryView;

    open spec fn deep_view(&self) -> TraceabilityEntryView {
        TraceabilityEntryView {
            requirement_id: self.requirement_id@,
            statement: self.statement@,
            priority: self.priority,
            risk_level: self.risk_level,
            source_stories: self.source_stories.deep_view(),
            verification_method: self.verification_method,
            covering_features: self.covering_features.deep_view(),
            covering_scenarios: self.covering_scenarios.deep_view(),
            coverage_techniques: self.coverage_techniques@,
            status: self.status,
        }
    }
}

/// Mathematical model of a `TraceabilitySummary`.
pub struct TraceabilitySummaryView {
    pub total_requirements: usize,
    pub covered: usize,
    pub partially_covered: usize,
    pub not_covered: usize,
    pub verified_other: usize,
    pub forward_coverage_pct: u64,
    pub orphan_tests: Seq<Seq<char>>,
}

/// Aggregate counts of the matrix; the forward coverage is an integer
/// percentage (100 for an empty matrix).
#[derive(Clone, Debug)]
pub struct TraceabilitySummary {
    pub total_requirements: usize,
    pub covered: usize,
    pub partially_covered: usize,
    pub not_covered: usize,
    pub verified_other: usize,
    pub forward_coverage_pct: u64,
    pub orphan_tests: Vec<String>,
}

impl DeepView for TraceabilitySummary {
    type V = TraceabilitySummaryView;

    open spec fn deep_view(&self) -> TraceabilitySummaryView {
        TraceabilitySummaryView {
            total_requirements: self.total_requirements,
            covered: self.covered,
            partially_covered: self.partially_covered,
            not_covered: self.not_covered,
            verified_other: self.verified_other,
            forward_coverage_pct: self.forward_coverage_pct,
            orphan_tests: self.orphan_tests.deep_view(),
        }
    }
}

/// Mathematical model of a `ComplianceNote`.
pub struct ComplianceNoteView {
    pub standard: Seq<char>,
    pub section: Seq<char>,
    pub status: ComplianceStatus,
    pub details: Seq<char>,
}

/// One normative compliance note.
#[derive(Clone, Debug)]
pub struct ComplianceNote {
    pub standard: String,
    pub section: String,
    pub status: ComplianceStatus,
    pub details: String,
}

impl DeepView for ComplianceNote {
    type V = ComplianceNoteView;

    open spec fn deep_view(&self) -> ComplianceNoteView {
        ComplianceNoteView {
            standard: self.standard@,
            section: self.section@,
            status: self.status,
            details: self.details@,
        }
    }
}

/// Mathematical model of a `TraceabilityMatrix`.
pub struct TraceabilityMatrixView {
    pub entries: Seq<TraceabilityEntryView>,
    pub summary: TraceabilitySummaryView,
    pub compliance_notes: Seq<ComplianceNoteView>,
}

/// The complete traceability matrix.
#[derive(Clone, Debug)]
pub struct TraceabilityMatrix {
    pub entries: Vec<TraceabilityEntry>,
    pub summary: TraceabilitySummary,
    pub compliance_notes: Vec<ComplianceNote>,
}

impl DeepView for TraceabilityMatrix {
    type V = TraceabilityMatrixView;

    open spec fn deep_view(&self) -> TraceabilityMatrixView {
        TraceabilityMatrixView {
            entries: self.entries.deep_view(),
            summary: self.summary.deep_view(),
            compliance_notes: self.compliance_notes.deep_view(),
        }
    }
}

// ---------------------------------------------------------------------------
// Coverage of one requirement
// ---------------------------------------------------------------------------

/// A tag with a leading '@' stripped.
pub open spec fn spec_strip_at(tag: Seq<char>) -> Seq<char> {
    if tag.len() > 0 && tag[0] == '@' {
        tag.drop_first()
    } else {
        tag
    }
}

fn strip_at(tag: &Vec<char>) -> (r: Vec<char>)
    ensures
        r@ == spec_strip_at(tag@),
{
    if tag.len() > 0 && tag[0] == '@' {
        let r = crate::textutil::subvec(tag, 1, tag.len());
        proof {
            assert(r@ =~= tag@.drop_first());
        }
        r
    } else {
        crate::textutil::subvec(tag, 0, tag.len())
    }
}

/// A scenario covers the requirement: a verification link, or a tag whose
/// '@'-stripped form is the requirement identifier.
pub open spec fn spec_scenario_covers(s: ScenarioView, id: Seq<char>) -> bool {
    seq_contains_str(s.verification_of, id) || exists|t: int|
        0 <= t < s.tags.len() && spec_strip_at(#[trigger] s.tags[t]) == id
}

fn scenario_covers(s: &crate::test_case::Scenario, id: &String) -> (r: bool)
    ensures
        r == spec_scenario_covers(s.deep_view(), id@),
{
    if crate::textutil::contains_string(&s.verification_of, id.as_str()) {
        return true;
    }
    let idc = to_chars(id.as_str());
    let mut t: usize = 0;
    while t < s.tags.len()
        invariant
            t <= s.tags@.len(),
            idc@ == id@,
            forall|k: int| 0 <= k < t ==> spec_strip_at(#[trigger] s.deep_view().tags[k]) != id@,
        decreases s.tags@.len() - t,
    {
        let tagc = to_chars(s.tags[t].as_str());
        proof {
            assert(tagc@ == s.deep_view().tags[t as int]);
        }
        let stripped = strip_at(&tagc);
        if crate::textutil::vec_char_eq(&stripped, &idc) {
            proof {
                assert(spec_strip_at(s.deep_view().tags[t as int]) == id@);
            }
            return true;
        }
        proof {
            assert(spec_strip_at(s.deep_view().tags[t as int]) != id@);
        }
        t = t + 1;
    }
    false
}

/// The names of the covering scenarios of one feature, in order.
pub open spec fn spec_covering_in(ss: Seq<ScenarioView>, id: Seq<char>) -> Seq<Seq<char>>
    decreases ss.len(),
{
    if ss.len() == 0 {
        Seq::<Seq<char>>::empty()
    } else {
        (if spec_scenario_covers(ss[0], id) {
            seq![ss[0].name]
        } else {
            Seq::<Seq<char>>::empty()
        }) + spec_covering_in(ss.drop_first(), id)
    }
}

/// The names of the covering scenarios over all features, in order.
pub open spec fn spec_covering_scenarios(fs: Seq<FeatureView>, id: Seq<char>) -> Seq<Seq<char>>
    decreases fs.len(),
{
    if fs.len() == 0 {
        Seq::<Seq<char>>::empty()
    } else {
        spec_covering_in(fs[0].scenarios, id) + spec_covering_scenarios(fs.drop_first(), id)
    }
}

fn covering_scenarios(suite: &TestSuite, id: &String) -> (r: Vec<String>)
    ensures
        r.deep_view() == spec_covering_scenarios(suite.features.deep_view(), id@),
{
    let ghost fs = suite.features.deep_view();
    let mut out: Vec<String> = Vec::new();
    let mut i: usize = 0;
    proof {
        assert(fs.skip(0) =~= fs);
    }
    while i < suite.features.len()
        invariant
            i <= suite.features@.len(),
            fs == suite.features.deep_view(),
            out.deep_view() + spec_covering_scenarios(fs.skip(i as int), id@)
                =~= spec_covering_scenarios(fs, id@),
        decreases suite.features@.len() - i,
    {
        let ghost rem = fs.skip(i as int);
        proof {
            assert(rem[0] == fs[i as int]);
            assert(rem.drop_first() =~= fs.skip(i + 1));
        }
        let feature = &suite.features[i];
        let ghost ss = feature.deep_view().scenarios;
        let ghost base = out.deep_view();
        let mut j: usize = 0;
        proof {
            assert(ss.skip(0) =~= ss);
        }
        while j < feature.scenarios.len()
            invariant
                j <= feature.scenarios@.len(),
                ss == feature.deep_view().scenarios,
                out.deep_view() + spec_covering_in(ss.skip(j as int), id@) =~= base
                    + spec_covering_in(ss, id@),
            decreases feature.scenarios@.len() - j,
        {
            let ghost srem = ss.skip(j as int);
            proof {
                assert(srem[0] == ss[j as int]);
                assert(srem.drop_first() =~= ss.skip(j + 1));
            }
            if scenario_covers(&feature.scenarios[j], id) {
                crate::dup::push_string(&mut out, &feature.scenarios[j].name);
            }
            j = j + 1;
            proof {
                assert(out.deep_view() + spec_covering_in(ss.skip(j as int), id@) =~= base
                    + spec_covering_in(ss, id@));
            }
        }
        i = i + 1;
        proof {
            assert(ss.skip(ss.len() as int) =~= Seq::<ScenarioView>::empty());
            assert(out.deep_view() + spec_covering_scenarios(fs.skip(i as int), id@)
                =~= spec_covering_scenarios(fs, id@));
        }
    }
    proof {
        assert(fs.skip(fs.len() as int) =~= Seq::<FeatureView>::empty());
        assert(out.deep_view() =~= spec_covering_scenarios(fs, id@));
    }
    out
}

// ---------------------------------------------------------------------------
// Status
// ---------------------------------------------------------------------------

/// The status of a requirement, from its verification method, its priority
/// and how many scenarios cover it: a method other than testing with no
/// covering scenario is verified by that other means; no coverage otherwise
/// is a gap; a top-priority requirement with fewer than two scenarios is
/// only partially covered; anything else is fully covered.
pub open spec fn spec_status(
    method: VerificationMethod,
    priority: Priority,
    cover_count: nat,
) -> TraceabilityStatus {
    if method == VerificationMethod::Analysis && cover_count == 0 {
        TraceabilityStatus::VerifiedByAnalysis
    } else if method == VerificationMethod::Inspection && cover_count == 0 {
        TraceabilityStatus::VerifiedByInspection
    } else if method == VerificationMethod::Demonstration && cover_count == 0 {
        TraceabilityStatus::VerifiedByDemo
    } else if cover_count == 0 {
        TraceabilityStatus::NotCovered
    } else if priority == Priority::P1 && cover_count < 2 {
        TraceabilityStatus::PartiallyCovered
    } else {
        TraceabilityStatus::FullyCovered
    }
}

/// Determines the coverage status of one requirement from its covering
/// scenarios.
pub fn determine_status(fr: &FunctionalRequirement, covering_scenarios: &Vec<String>) -> (r:
    TraceabilityStatus)
    ensures
        r == spec_status(fr.verification_method, fr.priority, covering_scenarios@.len() as nat),
{
    let count = covering_scenarios.len();
    if fr.verification_method == VerificationMethod::Analysis && count == 0 {
        TraceabilityStatus::VerifiedByAnalysis
    } else if fr.verification_method == VerificationMethod::Inspection && count == 0 {
        TraceabilityStatus::VerifiedByInspection
    } else if fr.verification_method == VerificationMethod::Demonstration && count == 0 {
        TraceabilityStatus::VerifiedByDemo
    } else if count == 0 {
        TraceabilityStatus::NotCovered
    } else if fr.priority == Priority::P1 && count < 2 {
        TraceabilityStatus::PartiallyCovered
    } else {
        TraceabilityStatus::FullyCovered
    }
}


// ---------------------------------------------------------------------------
// The remaining entry fields
// ---------------------------------------------------------------------------

/// A feature contributes to a requirement's coverage: it declares the
/// requirement covered, or one of its scenarios covers it.
pub open spec fn spec_feature_contributes(f: FeatureView, id: Seq<char>) -> bool {
    seq_contains_str(f.covered_requirements, id) || exists|j: int|
        0 <= j < f.scenarios.len() && spec_scenario_covers(#[trigger] f.scenarios[j], id)
}

/// The names of the contributing features, in order, before deduplication.
pub open spec fn spec_contributing_names(fs: Seq<FeatureView>, id: Seq<char>) -> Seq<Seq<char>>
    decreases fs.len(),
{
    if fs.len() == 0 {
        Seq::<Seq<char>>::empty()
    } else {
        (if spec_feature_contributes(fs[0], id) {
            seq![fs[0].name]
        } else {
            Seq::<Seq<char>>::empty()
        }) + spec_contributing_names(fs.drop_first(), id)
    }
}

/// The covering feature names: contributing features in order, first
/// occurrence of each name kept.
pub open spec fn spec_covering_features(fs: Seq<FeatureView>, id: Seq<char>) -> Seq<Seq<char>> {
    spec_dedup_strs(spec_contributing_names(fs, id))
}

fn feature_contributes(f: &crate::test_case::Feature, id: &String) -> (r: bool)
    ensures
        r == spec_feature_contributes(f.deep_view(), id@),
{
    if crate::textutil::contains_string(&f.covered_requirements, id.as_str()) {
        return true;
    }
    let mut j: usize = 0;
    while j < f.scenarios.len()
        invariant
            j <= f.scenarios@.len(),
            forall|k: int|
                0 <= k < j ==> !spec_scenario_covers(#[trigger] f.deep_view().scenarios[k], id@),
        decreases f.scenarios@.len() - j,
    {
        if scenario_covers(&f.scenarios[j], id) {
            proof {
                assert(spec_scenario_covers(f.deep_view().scenarios[j as int], id@));
            }
            return true;
        }
        j = j + 1;
    }
    false
}

fn covering_features(suite: &TestSuite, id: &String) -> (r: Vec<String>)
    ensures
        r.deep_view() == spec_covering_features(suite.features.deep_view(), id@),
{
    let ghost fs = suite.features.deep_view();
    let mut names: Vec<String> = Vec::new();
    let mut i: usize = 0;
    proof {
        assert(fs.skip(0) =~= fs);
    }
    while i < suite.features.len()
        invariant
            i <= suite.features@.len(),
            fs == suite.features.deep_view(),
            names.deep_view() + spec_contributing_names(fs.skip(i as int), id@)
                =~= spec_contributing_names(fs, id@),
        decreases suite.features@.len() - i,
    {
        let ghost rem = fs.skip(i as int);
        proof {
            assert(rem[0] == fs[i as int]);
            assert(rem.drop_first() =~= fs.skip(i + 1));
        }
        if feature_contributes(&suite.features[i], id) {
            crate::dup::push_string(&mut names, &suite.features[i].name);
        }
        i = i + 1;
        proof {
            assert(names.deep_view() + spec_contributing_names(fs.skip(i as int), id@)
                =~= spec_contributing_names(fs, id@));
        }
    }
    proof {
        assert(fs.skip(fs.len() as int) =~= Seq::<FeatureView>::empty());
        assert(names.deep_view() =~= spec_contributing_names(fs, id@));
    }
    dedup_strings(&names)
}

/// Some covering scenario of the requirement carries this technique.
pub open spec fn spec_technique_present(
    fs: Seq<FeatureView>,
    id: Seq<char>,
    t: CoverageTechnique,
) -> bool {
    exists|i: int, j: int|
        0 <= i < fs.len() && 0 <= j < fs[i].scenarios.len() && spec_scenario_covers(
            #[trigger] fs[i].scenarios[j],
            id,
        ) && fs[i].scenarios[j].coverage_technique == Some(t)
}

/// The techniques of the covering scenarios, reported once each, in the
/// fixed variant order.
pub open spec fn spec_coverage_techniques(fs: Seq<FeatureView>, id: Seq<char>) -> Seq<
    CoverageTechnique,
> {
    let all = seq![
        CoverageTechnique::EquivalencePartitioning,
        CoverageTechnique::BoundaryValueAnalysis,
        CoverageTechnique::DecisionTable,
        CoverageTechnique::StateTransition,
        CoverageTechnique::ErrorGuessing,
    ];
    all.filter(|t: CoverageTechnique| spec_technique_present(fs, id, t))
}

fn technique_present(suite: &TestSuite, id: &String, t: CoverageTechnique) -> (r: bool)
    ensures
        r == spec_technique_present(suite.features.deep_view(), id@, t),
{
    let ghost fs = suite.features.deep_view();
    let mut i: usize = 0;
    while i < suite.features.len()
        invariant
            i <= suite.features@.len(),
            fs == suite.features.deep_view(),
            forall|a: int, b: int|
                0 <= a < i && 0 <= b < fs[a].scenarios.len() ==> !(spec_scenario_covers(
                    #[trigger] fs[a].scenarios[b],
                    id@,
                ) && fs[a].scenarios[b].coverage_technique == Some(t)),
        decreases suite.features@.len() - i,
    {
        let feature = &suite.features[i];
        let mut j: usize = 0;
        while j < feature.scenarios.len()
            invariant
                i < suite.features@.len(),
                j <= feature.scenarios@.len(),
                fs == suite.features.deep_view(),
                feature.deep_view() == fs[i as int],
                forall|b: int|
                    0 <= b < j ==> !(spec_scenario_covers(
                        #[trigger] fs[i as int].scenarios[b],
                        id@,
                    ) && fs[i as int].scenarios[b].coverage_technique == Some(t)),
            decreases feature.scenarios@.len() - j,
        {
            let sc = &feature.scenarios[j];
            let tech_matches: bool = match sc.coverage_technique {
                Some(ct) => ct == t,
                None => false,
            };
            if tech_matches && scenario_covers(sc, id) {
                proof {
                    assert(spec_scenario_covers(fs[i as int].scenarios[j as int], id@)
                        && fs[i as int].scenarios[j as int].coverage_technique == Some(t));
                }
                return true;
            }
            j = j + 1;
        }
        i = i + 1;
    }
    false
}

fn coverage_techniques(suite: &TestSuite, id: &String) -> (r: Vec<CoverageTechnique>)
    ensures
        r@ == spec_coverage_techniques(suite.features.deep_view(), id@),
{
    let ghost fs = suite.features.deep_view();
    let mut r: Vec<CoverageTechnique> = Vec::new();
    if technique_present(suite, id, CoverageTechnique::EquivalencePartitioning) {
        r.push(CoverageTechnique::EquivalencePartitioning);
    }
    if technique_present(suite, id, CoverageTechnique::BoundaryValueAnalysis) {
        r.push(CoverageTechnique::BoundaryValueAnalysis);
    }
    if technique_present(suite, id, CoverageTechnique::DecisionTable) {
        r.push(CoverageTechnique::DecisionTable);
    }
    if technique_present(suite, id, CoverageTechnique::StateTransition) {
        r.push(CoverageTechnique::StateTransition);
    }
    if technique_present(suite, id, CoverageTechnique::ErrorGuessing) {
        r.push(CoverageTechnique::ErrorGuessing);
    }
    proof {
        reveal_with_fuel(Seq::filter, 7);
        assert(r@ =~= spec_coverage_techniques(fs, id@));
    }
    r
}

/// The user-scenario identifiers named by the requirement's declared
/// source: scenarios whose identifier occurs in the source text, in order;
/// empty when no source is declared.
pub open spec fn spec_source_stories(
    us: Seq<crate::specification::UserScenarioView>,
    source: Option<Seq<char>>,
) -> Seq<Seq<char>>
    decreases us.len(),
{
    match source {
        Option::None => Seq::<Seq<char>>::empty(),
        Option::Some(src) => if us.len() == 0 {
            Seq::<Seq<char>>::empty()
        } else {
            (if spec_contains(src, us[0].id) {
                seq![us[0].id]
            } else {
                Seq::<Seq<char>>::empty()
            }) + spec_source_stories(us.drop_first(), source)
        },
    }
}

fn source_stories(spec: &Specification, source: &Option<String>) -> (r: Vec<String>)
    ensures
        r.deep_view() == spec_source_stories(
            spec.user_scenarios.deep_view(),
            match source {
                Option::Some(ref s) => Option::Some(s@),
                Option::None => Option::None,
            },
        ),
{
    let ghost usv = spec.user_scenarios.deep_view();
    let mut r: Vec<String> = Vec::new();
    match source {
        None => {
            proof {
                assert(r.deep_view() =~= spec_source_stories(usv, Option::None));
            }
            r
        },
        Some(src) => {
            let ghost srcv = src@;
            let srcc = to_chars(src.as_str());
            let mut i: usize = 0;
            proof {
                assert(usv.skip(0) =~= usv);
            }
            while i < spec.user_scenarios.len()
                invariant
                    i <= spec.user_scenarios@.len(),
                    usv == spec.user_scenarios.deep_view(),
                    srcc@ == srcv,
                    r.deep_view() + spec_source_stories(usv.skip(i as int), Option::Some(srcv))
                        =~= spec_source_stories(usv, Option::Some(srcv)),
                decreases spec.user_scenarios@.len() - i,
            {
                let ghost rem = usv.skip(i as int);
                proof {
                    assert(rem[0] == usv[i as int]);
                    assert(rem.drop_first() =~= usv.skip(i + 1));
                }
                let idc = to_chars(spec.user_scenarios[i].id.as_str());
                if contains_sub(&srcc, &idc) {
                    crate::dup::push_string(&mut r, &spec.user_scenarios[i].id);
                }
                i = i + 1;
                proof {
                    assert(r.deep_view() + spec_source_stories(usv.skip(i as int), Option::Some(
                        srcv,
                    )) =~= spec_source_stories(usv, Option::Some(srcv)));
                }
            }
            proof {
                assert(usv.skip(usv.len() as int) =~= Seq::<
                    crate::specification::UserScenarioView,
                >::empty());
                assert(r.deep_view() =~= spec_source_stories(usv, Option::Some(srcv)));
            }
            r
        },
    }
}

// ---------------------------------------------------------------------------
// Orphans
// ---------------------------------------------------------------------------

/// A scenario is linked when it declares a verification link or carries a
/// tag matching some known requirement identifier.
pub open spec fn spec_scenario_linked(s: ScenarioView, fr_ids: Seq<Seq<char>>) -> bool {
    s.verification_of.len() > 0 || exists|t: int, k: int|
        0 <= t < s.tags.len() && 0 <= k < fr_ids.len() && spec_strip_at(#[trigger] s.tags[t])
            == #[trigger] fr_ids[k]
}

fn scenario_linked(s: &crate::test_case::Scenario, fr_ids: &Vec<String>) -> (r: bool)
    ensures
        r == spec_scenario_linked(s.deep_view(), fr_ids.deep_view()),
{
    if s.verification_of.len() > 0 {
        return true;
    }
    let mut t: usize = 0;
    while t < s.tags.len()
        invariant
            t <= s.tags@.len(),
            forall|a: int, k: int|
                0 <= a < t && 0 <= k < fr_ids.deep_view().len() ==> spec_strip_at(
                    #[trigger] s.deep_view().tags[a],
                ) != #[trigger] fr_ids.deep_view()[k],
        decreases s.tags@.len() - t,
    {
        let tagc = to_chars(s.tags[t].as_str());
        proof {
            assert(tagc@ == s.deep_view().tags[t as int]);
        }
        let stripped = strip_at(&tagc);
        let stripped_s = chars_to_string(&stripped);
        if crate::textutil::contains_string(fr_ids, stripped_s.as_str()) {
            proof {
                let k = choose|k: int|
                    0 <= k < fr_ids.deep_view().len() && fr_ids.deep_view()[k] == stripped_s@;
                assert(spec_strip_at(s.deep_view().tags[t as int]) == fr_ids.deep_view()[k]);
            }
            return true;
        }
        t = t + 1;
        proof {
            assert forall|a: int, k: int|
                0 <= a < t && 0 <= k < fr_ids.deep_view().len() implies spec_strip_at(
                #[trigger] s.deep_view().tags[a],
            ) != #[trigger] fr_ids.deep_view()[k] by {
                if a == t - 1 {
                    assert(!seq_contains_str(fr_ids.deep_view(), stripped_s@));
                }
            }
        }
    }
    false
}

/// The names of the unlinked scenarios of one feature, in order.
pub open spec fn spec_orphans_in(ss: Seq<ScenarioView>, fr_ids: Seq<Seq<char>>) -> Seq<Seq<char>>
    decreases ss.len(),
{
    if ss.len() == 0 {
        Seq::<Seq<char>>::empty()
    } else {
        (if !spec_scenario_linked(ss[0], fr_ids) {
            seq![ss[0].name]
        } else {
            Seq::<Seq<char>>::empty()
        }) + spec_orphans_in(ss.drop_first(), fr_ids)
    }
}

/// The names of the orphan scenarios over all features, in order.
pub open spec fn spec_orphans(fs: Seq<FeatureView>, fr_ids: Seq<Seq<char>>) -> Seq<Seq<char>>
    decreases fs.len(),
{
    if fs.len() == 0 {
        Seq::<Seq<char>>::empty()
    } else {
        spec_orphans_in(fs[0].scenarios, fr_ids) + spec_orphans(fs.drop_first(), fr_ids)
    }
}

/// Lists the orphan scenarios' names for the given requirement identifiers.
pub fn orphan_tests_public(suite: &TestSuite, fr_ids: &Vec<String>) -> (r: Vec<String>)
    ensures
        r.deep_view() == spec_orphans(suite.features.deep_view(), fr_ids.deep_view()),
{
    let ghost fs = suite.features.deep_view();
    let ghost ids = fr_ids.deep_view();
    let mut out: Vec<String> = Vec::new();
    let mut i: usize = 0;
    proof {
        assert(fs.skip(0) =~= fs);
    }
    while i < suite.features.len()
        invariant
            i <= suite.features@.len(),
            fs == suite.features.deep_view(),
            ids == fr_ids.deep_view(),
            out.deep_view() + spec_orphans(fs.skip(i as int), ids) =~= spec_orphans(fs, ids),
        decreases suite.features@.len() - i,
    {
        let ghost rem = fs.skip(i as int);
        proof {
            assert(rem[0] == fs[i as int]);
            assert(rem.drop_first() =~= fs.skip(i + 1));
        }
        let feature = &suite.features[i];
        let ghost ss = feature.deep_view().scenarios;
        let ghost base = out.deep_view();
        let mut j: usize = 0;
        proof {
            assert(ss.skip(0) =~= ss);
        }
        while j < feature.scenarios.len()
            invariant
                j <= feature.scenarios@.len(),
                ss == feature.deep_view().scenarios,
                ids == fr_ids.deep_view(),
                out.deep_view() + spec_orphans_in(ss.skip(j as int), ids) =~= base
                    + spec_orphans_in(ss, ids),
            decreases feature.scenarios@.len() - j,
        {
            let ghost srem = ss.skip(j as int);
            proof {
                assert(srem[0] == ss[j as int]);
                assert(srem.drop_first() =~= ss.skip(j + 1));
            }
            if !scenario_linked(&feature.scenarios[j], fr_ids) {
                crate::dup::push_string(&mut out, &feature.scenarios[j].name);
            }
            j = j + 1;
            proof {
                assert(out.deep_view() + spec_orphans_in(ss.skip(j as int), ids) =~= base
                    + spec_orphans_in(ss, ids));
            }
        }
        i = i + 1;
        proof {
            assert(ss.skip(ss.len() as int) =~= Seq::<ScenarioView>::empty());
            assert(out.deep_view() + spec_orphans(fs.skip(i as int), ids) =~= spec_orphans(
                fs,
                ids,
            ));
        }
    }
    proof {
        assert(fs.skip(fs.len() as int) =~= Seq::<FeatureView>::empty());
        assert(out.deep_view() =~= spec_orphans(fs, ids));
    }
    out
}


// ---------------------------------------------------------------------------
// Entries and summary
// ---------------------------------------------------------------------------

/// The identifiers of a requirement sequence, in order.
pub open spec fn spec_fr_ids(frs: Seq<FunctionalRequirementView>) -> Seq<Seq<char>> {
    Seq::new(frs.len(), |i: int| frs[i].id)
}

/// The matrix row of the i-th requirement.
pub open spec fn spec_entry(sv: SpecificationView, tv: TestSuiteView, i: int) -> TraceabilityEntryView {
    let fr = sv.functional_requirements[i];
    TraceabilityEntryView {
        requirement_id: fr.id,
        statement: fr.statement,
        priority: fr.priority,
        risk_level: fr.risk_level,
        source_stories: spec_source_stories(sv.user_scenarios, fr.source),
        verification_method: fr.verification_method,
        covering_features: spec_covering_features(tv.features, fr.id),
        covering_scenarios: spec_covering_scenarios(tv.features, fr.id),
        coverage_techniques: spec_coverage_techniques(tv.features, fr.id),
        status: spec_status(
            fr.verification_method,
            fr.priority,
            spec_covering_scenarios(tv.features, fr.id).len(),
        ),
    }
}

/// All matrix rows, one per requirement, in order.
pub open spec fn spec_entries(sv: SpecificationView, tv: TestSuiteView) -> Seq<TraceabilityEntryView> {
    Seq::new(sv.functional_requirements.len(), |i: int| spec_entry(sv, tv, i))
}

/// How many entries have the given status.
pub open spec fn spec_count_status(es: Seq<TraceabilityEntryView>, st: TraceabilityStatus) -> nat
    decreases es.len(),
{
    if es.len() == 0 {
        0
    } else {
        (if es[0].status == st {
            1nat
        } else {
            0nat
        }) + spec_count_status(es.drop_first(), st)
    }
}

/// Forward coverage as an integer percentage: covered-in-any-way out of
/// total, floored; an empty matrix counts as fully covered.
pub open spec fn spec_forward_pct(total: nat, not_covered: nat) -> nat {
    if total == 0 {
        100
    } else if not_covered > total {
        0
    } else {
        (((total - not_covered) * 100 / (total as int)) as nat)
    }
}

fn count_status(entries: &Vec<TraceabilityEntry>, st: TraceabilityStatus) -> (r: usize)
    ensures
        r == spec_count_status(entries.deep_view(), st),
        r <= entries@.len(),
{
    let ghost es = entries.deep_view();
    let mut count: usize = 0;
    let mut i: usize = 0;
    proof {
        assert(es.skip(0) =~= es);
    }
    while i < entries.len()
        invariant
            i <= entries@.len(),
            count <= i,
            es == entries.deep_view(),
            count + spec_count_status(es.skip(i as int), st) == spec_count_status(es, st),
        decreases entries@.len() - i,
    {
        let ghost rem = es.skip(i as int);
        proof {
            assert(rem[0] == es[i as int]);
            assert(rem.drop_first() =~= es.skip(i + 1));
        }
        if entries[i].status == st {
            count = count + 1;
        }
        i = i + 1;
    }
    proof {
        assert(es.skip(es.len() as int) =~= Seq::<TraceabilityEntryView>::empty());
    }
    count
}

// ---------------------------------------------------------------------------
// Compliance notes
// ---------------------------------------------------------------------------

/// Some ambiguous word occurs (as a plain substring) in the lower-cased
/// statement.
pub open spec fn spec_has_ambiguous_plain(lower: Seq<char>) -> bool {
    exists|i: int|
        0 <= i < crate::lexicon::spec_ambiguous_words().len() && spec_contains(
            lower,
            #[trigger] crate::lexicon::spec_ambiguous_words()[i],
        )
}

fn has_ambiguous_plain(lower: &Vec<char>) -> (r: bool)
    ensures
        r == spec_has_ambiguous_plain(lower@),
{
    let words = crate::lexicon::ambiguous_words();
    let mut i: usize = 0;
    while i < words.len()
        invariant
            i <= words@.len(),
            words.deep_view() == crate::lexicon::spec_ambiguous_words(),
            forall|k: int|
                0 <= k < i ==> !spec_contains(
                    lower@,
                    #[trigger] crate::lexicon::spec_ambiguous_words()[k],
                ),
        decreases words@.len() - i,
    {
        let w = to_chars(words[i].as_str());
        if contains_sub(lower, &w) {
            proof {
                assert(words.deep_view()[i as int]
                    == crate::lexicon::spec_ambiguous_words()[i as int]);
                assert(spec_contains(lower@, crate::lexicon::spec_ambiguous_words()[i as int]));
            }
            return true;
        }
        i = i + 1;
    }
    false
}

/// Every entry's statement is free of ambiguous words (plain substring
/// check on the lower-cased statement).
pub open spec fn spec_all_unambiguous(es: Seq<TraceabilityEntryView>) -> bool {
    forall|i: int|
        0 <= i < es.len() ==> !spec_has_ambiguous_plain(spec_fold_lower(
            (#[trigger] es[i]).statement,
        ))
}

fn all_unambiguous(entries: &Vec<TraceabilityEntry>) -> (r: bool)
    ensures
        r == spec_all_unambiguous(entries.deep_view()),
{
    let mut i: usize = 0;
    while i < entries.len()
        invariant
            i <= entries@.len(),
            forall|k: int|
                0 <= k < i ==> !spec_has_ambiguous_plain(spec_fold_lower(
                    (#[trigger] entries.deep_view()[k]).statement,
                )),
        decreases entries@.len() - i,
    {
        let lower = fold_lower(&to_chars(entries[i].statement.as_str()));
        if has_ambiguous_plain(&lower) {
            proof {
                assert(spec_has_ambiguous_plain(spec_fold_lower(
                    entries.deep_view()[i as int].statement,
                )));
            }
            return false;
        }
        i = i + 1;
    }
    true
}

pub open spec fn spec_dal_label(d: DalLevel) -> Seq<char> {
    match d {
        DalLevel::A => "A"@,
        DalLevel::B => "B"@,
        DalLevel::C => "C"@,
        DalLevel::D => "D"@,
        DalLevel::E => "E"@,
    }
}

pub open spec fn spec_sw_label(c: SwClass) -> Seq<char> {
    match c {
        SwClass::A => "A"@,
        SwClass::B => "B"@,
        SwClass::C => "C"@,
    }
}

pub open spec fn spec_asil_label(a: crate::specification::AsilLevel) -> Seq<char> {
    match a {
        crate::specification::AsilLevel::A => "A"@,
        crate::specification::AsilLevel::B => "B"@,
        crate::specification::AsilLevel::C => "C"@,
        crate::specification::AsilLevel::D => "D"@,
    }
}

pub open spec fn spec_ssil_label(l: SsilLevel) -> Seq<char> {
    match l {
        SsilLevel::Level0 => "Level0"@,
        SsilLevel::Level1 => "Level1"@,
        SsilLevel::Level2 => "Level2"@,
        SsilLevel::Level3 => "Level3"@,
        SsilLevel::Level4 => "Level4"@,
    }
}

pub open spec fn spec_sil_label(l: SilLevel) -> Seq<char> {
    match l {
        SilLevel::Sil1 => "Sil1"@,
        SilLevel::Sil2 => "Sil2"@,
        SilLevel::Sil3 => "Sil3"@,
        SilLevel::Sil4 => "Sil4"@,
    }
}

/// The profile-specific compliance note, when a profile is declared.
pub open spec fn spec_profile_note(profile: ComplianceProfile, pct: nat) -> ComplianceNoteView {
    match profile {
        ComplianceProfile::Aviation(dal) => ComplianceNoteView {
            standard: "DO-178C"@,
            section: "Objectives"@,
            status: if pct >= 100 {
                ComplianceStatus::Compliant
            } else {
                ComplianceStatus::NonCompliant
            },
            details: "DAL "@ + spec_dal_label(dal) + " — couverture "@ + spec_digits(pct) + "%"@,
        },
        ComplianceProfile::Medical(sw) => ComplianceNoteView {
            standard: "IEC 62304"@,
            section: "Software safety classification"@,
            status: if pct >= 90 {
                ComplianceStatus::Compliant
            } else {
                ComplianceStatus::PartiallyCompliant
            },
            details: "SW Class "@ + spec_sw_label(sw) + " — couverture "@ + spec_digits(pct)
                + "%"@,
        },
        ComplianceProfile::Automotive(asil) => ComplianceNoteView {
            standard: "ISO 26262"@,
            section: "Part 6 — Software development"@,
            status: if pct >= 95 {
                ComplianceStatus::Compliant
            } else {
                ComplianceStatus::PartiallyCompliant
            },
            details: "ASIL "@ + spec_asil_label(asil) + " — couverture "@ + spec_digits(pct)
                + "%"@,
        },
        ComplianceProfile::Railway(ssil) => ComplianceNoteView {
            standard: "EN 50716"@,
            section: "Software requirements"@,
            status: if pct >= 100 {
                ComplianceStatus::Compliant
            } else {
                ComplianceStatus::NonCompliant
            },
            details: "SSIL "@ + spec_ssil_label(ssil) + " — couverture "@ + spec_digits(pct)
                + "%"@,
        },
        ComplianceProfile::Safety(sil) => ComplianceNoteView {
            standard: "IEC 61508"@,
            section: "Part 3 — Software requirements"@,
            status: if pct >= 95 {
                ComplianceStatus::Compliant
            } else {
                ComplianceStatus::PartiallyCompliant
            },
            details: "SIL "@ + spec_sil_label(sil) + " — couverture "@ + spec_digits(pct) + "%"@,
        },
        ComplianceProfile::General => ComplianceNoteView {
            standard: "ISO/IEC/IEEE 29148:2018"@,
            section: "General compliance"@,
            status: if pct >= 80 {
                ComplianceStatus::Compliant
            } else {
                ComplianceStatus::PartiallyCompliant
            },
            details: "Couverture generale: "@ + spec_digits(pct) + "%"@,
        },
    }
}

/// The compliance notes: traceability coverage, well-formedness, and the
/// declared profile's own note if any.
pub open spec fn spec_notes(
    profile: Option<ComplianceProfile>,
    pct: nat,
    n_entries: nat,
    all_unambiguous: bool,
) -> Seq<ComplianceNoteView> {
    let trace = ComplianceNoteView {
        standard: "ISO/IEC/IEEE 29148:2018"@,
        section: "6.6 — Traceability"@,
        status: if pct >= 100 {
            ComplianceStatus::Compliant
        } else if pct >= 80 {
            ComplianceStatus::PartiallyCompliant
        } else {
            ComplianceStatus::NonCompliant
        },
        details: "Couverture forward: "@ + spec_digits(pct) + "%"@,
    };
    let wf = ComplianceNoteView {
        standard: "ISO/IEC/IEEE 29148:2018"@,
        section: "5.2.5 — Well-formed requirements"@,
        status: if all_unambiguous {
            ComplianceStatus::Compliant
        } else {
            ComplianceStatus::PartiallyCompliant
        },
        details: spec_digits(n_entries) + " exigences dans la matrice"@,
    };
    match profile {
        Option::Some(p) => seq![trace, wf, spec_profile_note(p, pct)],
        Option::None => seq![trace, wf],
    }
}

fn level_details(prefix: &str, label: &str, pct: u64) -> (r: String)
    ensures
        r@ == prefix@ + label@ + " — couverture "@ + spec_digits(pct as nat) + "%"@,
{
    let mut v = to_chars(prefix);
    let mut lc = to_chars(label);
    v.append(&mut lc);
    let mut mid = to_chars(" — couverture ");
    v.append(&mut mid);
    push_u64_digits(pct, &mut v);
    let mut tail = to_chars("%");
    v.append(&mut tail);
    let r = chars_to_string(&v);
    proof {
        assert(r@ =~= prefix@ + label@ + " — couverture "@ + spec_digits(pct as nat) + "%"@);
    }
    r
}

fn count_details(n: u64, suffix: &str) -> (r: String)
    ensures
        r@ == spec_digits(n as nat) + suffix@,
{
    let mut v = crate::textutil::u64_digits(n);
    let mut tail = to_chars(suffix);
    v.append(&mut tail);
    let r = chars_to_string(&v);
    proof {
        assert(r@ =~= spec_digits(n as nat) + suffix@);
    }
    r
}

fn pct_details(prefix: &str, pct: u64, suffix: &str) -> (r: String)
    ensures
        r@ == prefix@ + spec_digits(pct as nat) + suffix@,
{
    let mut v = to_chars(prefix);
    push_u64_digits(pct, &mut v);
    let mut tail = to_chars(suffix);
    v.append(&mut tail);
    let s = chars_to_string(&v);
    proof {
        assert(s@ =~= prefix@ + spec_digits(pct as nat) + suffix@);
    }
    s
}

fn profile_note(profile: ComplianceProfile, pct: u64) -> (r: ComplianceNote)
    ensures
        r.deep_view() == spec_profile_note(profile, pct as nat),
{
    match profile {
        ComplianceProfile::Aviation(dal) => {
            let label: &'static str = match dal {
                DalLevel::A => "A",
                DalLevel::B => "B",
                DalLevel::C => "C",
                DalLevel::D => "D",
                DalLevel::E => "E",
            };
            let r = ComplianceNote {
                standard: String::from_str("DO-178C"),
                section: String::from_str("Objectives"),
                status: if pct >= 100 {
                    ComplianceStatus::Compliant
                } else {
                    ComplianceStatus::NonCompliant
                },
                details: level_details("DAL ", label, pct),
            };
            r
        },
        ComplianceProfile::Medical(sw) => {
            let label: &'static str = match sw {
                SwClass::A => "A",
                SwClass::B => "B",
                SwClass::C => "C",
            };
            let r = ComplianceNote {
                standard: String::from_str("IEC 62304"),
                section: String::from_str("Software safety classification"),
                status: if pct >= 90 {
                    ComplianceStatus::Compliant
                } else {
                    ComplianceStatus::PartiallyCompliant
                },
                details: level_details("SW Class ", label, pct),
            };
            r
        },
        ComplianceProfile::Automotive(asil) => {
            let label: &'static str = match asil {
                crate::specification::AsilLevel::A => "A",
                crate::specification::AsilLevel::B => "B",
                crate::specification::AsilLevel::C => "C",
                crate::specification::AsilLevel::D => "D",
            };
            let r = ComplianceNote {
                standard: String::from_str("ISO 26262"),
                section: String::from_str("Part 6 — Software development"),
                status: if pct >= 95 {
                    ComplianceStatus::Compliant
                } else {
                    ComplianceStatus::PartiallyCompliant
                },
                details: level_details("ASIL ", label, pct),
            };
            r
        },
        ComplianceProfile::Railway(ssil) => {
            let label: &'static str = match ssil {
                SsilLevel::Level0 => "Level0",
                SsilLevel::Level1 => "Level1",
                SsilLevel::Level2 => "Level2",
                SsilLevel::Level3 => "Level3",
                SsilLevel::Level4 => "Level4",
            };
            let r = ComplianceNote {
                standard: String::from_str("EN 50716"),
                section: String::from_str("Software requirements"),
                status: if pct >= 100 {
                    ComplianceStatus::Compliant
                } else {
                    ComplianceStatus::NonCompliant
                },
                details: level_details("SSIL ", label, pct),
            };
            r
        },
        ComplianceProfile::Safety(sil) => {
            let label: &'static str = match sil {
                SilLevel::Sil1 => "Sil1",
                SilLevel::Sil2 => "Sil2",
                SilLevel::Sil3 => "Sil3",
                SilLevel::Sil4 => "Sil4",
            };
            let r = ComplianceNote {
                standard: String::from_str("IEC 61508"),
                section: String::from_str("Part 3 — Software requirements"),
                status: if pct >= 95 {
                    ComplianceStatus::Compliant
                } else {
                    ComplianceStatus::PartiallyCompliant
                },
                details: level_details("SIL ", label, pct),
            };
            r
        },
        ComplianceProfile::General => {
            let r = ComplianceNote {
                standard: String::from_str("ISO/IEC/IEEE 29148:2018"),
                section: String::from_str("General compliance"),
                status: if pct >= 80 {
                    ComplianceStatus::Compliant
                } else {
                    ComplianceStatus::PartiallyCompliant
                },
                details: pct_details("Couverture generale: ", pct, "%"),
            };
            r
        },
    }
}

// ---------------------------------------------------------------------------
// The builder
// ---------------------------------------------------------------------------

/// The whole matrix as a pure function of the inputs.
pub open spec fn spec_matrix(sv: SpecificationView, tv: TestSuiteView) -> TraceabilityMatrixView {
    let es = spec_entries(sv, tv);
    let nc = spec_count_status(es, TraceabilityStatus::NotCovered);
    let pct = spec_forward_pct(es.len(), nc);
    TraceabilityMatrixView {
        entries: es,
        summary: TraceabilitySummaryView {
            total_requirements: es.len() as usize,
            covered: spec_count_status(es, TraceabilityStatus::FullyCovered) as usize,
            partially_covered: spec_count_status(es, TraceabilityStatus::PartiallyCovered)
                as usize,
            not_covered: nc as usize,
            verified_other: (spec_count_status(es, TraceabilityStatus::VerifiedByAnalysis)
                + spec_count_status(es, TraceabilityStatus::VerifiedByInspection)
                + spec_count_status(es, TraceabilityStatus::VerifiedByDemo)) as usize,
            forward_coverage_pct: pct as u64,
            orphan_tests: spec_orphans(tv.features, spec_fr_ids(sv.functional_requirements)),
        },
        compliance_notes: spec_notes(
            sv.compliance_profile,
            pct,
            es.len(),
            spec_all_unambiguous(es),
        ),
    }
}

/// Re-running the traceability builder on the same artifact set yields an
/// identical matrix, coverage counts included: the matrix is a pure
/// function of the specification and the suite.
pub proof fn lemma_traceability_idempotent(
    sv: SpecificationView,
    tv: TestSuiteView,
    m1: TraceabilityMatrixView,
    m2: TraceabilityMatrixView,
)
    requires
        m1 == spec_matrix(sv, tv),
        m2 == spec_matrix(sv, tv),
    ensures
        m1 == m2,
        m1.summary == m2.summary,
{
}

/// Builds the full traceability matrix: one entry per requirement with its
/// covering artifacts and status, the orphan artifacts, the aggregate
/// counts with the forward-coverage percentage, and the compliance notes.
pub fn build_traceability_matrix(spec: &Specification, suite: &TestSuite) -> (r:
    TraceabilityMatrix)
    ensures
        r.deep_view() == spec_matrix(spec.deep_view(), suite.deep_view()),
{
    let ghost sv = spec.deep_view();
    let ghost tv = suite.deep_view();
    let mut entries: Vec<TraceabilityEntry> = Vec::new();
    let ghost mut esv: Seq<TraceabilityEntryView> = Seq::<TraceabilityEntryView>::empty();
    let mut i: usize = 0;
    while i < spec.functional_requirements.len()
        invariant
            i <= spec.functional_requirements@.len(),
            sv == spec.deep_view(),
            tv == suite.deep_view(),
            esv == entries.deep_view(),
            esv.len() == i,
            forall|k: int| 0 <= k < i ==> #[trigger] esv[k] == spec_entry(sv, tv, k),
        decreases spec.functional_requirements@.len() - i,
    {
        let fr = &spec.functional_requirements[i];
        proof {
            assert(fr.deep_view() == sv.functional_requirements[i as int]);
        }
        let covering_sc = covering_scenarios(suite, &fr.id);
        let status = determine_status(fr, &covering_sc);
        let entry = TraceabilityEntry {
            requirement_id: fr.id.clone(),
            statement: fr.statement.clone(),
            priority: fr.priority,
            risk_level: fr.risk_level,
            source_stories: source_stories(spec, &fr.source),
            verification_method: fr.verification_method,
            covering_features: covering_features(suite, &fr.id),
            covering_scenarios: covering_sc,
            coverage_techniques: coverage_techniques(suite, &fr.id),
            status,
        };
        let ghost ev = entry.deep_view();
        proof {
            assert(ev == spec_entry(sv, tv, i as int));
        }
        entries.push(entry);
        i = i + 1;
        proof {
            let prev = esv;
            esv = esv.push(ev);
            assert(entries.deep_view() =~= esv);
            assert forall|k: int| 0 <= k < i implies #[trigger] esv[k] == spec_entry(
                sv,
                tv,
                k,
            ) by {
                if k < i - 1 {
                    assert(esv[k] == prev[k]);
                }
            }
        }
    }
    proof {
        assert(entries.deep_view() =~= spec_entries(sv, tv));
    }

    // Requirement identifiers, for orphan detection.
    let mut fr_ids: Vec<String> = Vec::new();
    let mut i: usize = 0;
    while i < spec.functional_requirements.len()
        invariant
            i <= spec.functional_requirements@.len(),
            sv == spec.deep_view(),
            fr_ids@.len() == i,
            forall|k: int|
                0 <= k < i ==> fr_ids.deep_view()[k] == spec_fr_ids(
                    sv.functional_requirements,
                )[k],
        decreases spec.functional_requirements@.len() - i,
    {
        let ghost pre = fr_ids.deep_view();
        crate::dup::push_string(&mut fr_ids, &spec.functional_requirements[i].id);
        i = i + 1;
        proof {
            assert forall|k: int|
                0 <= k < i implies fr_ids.deep_view()[k] == spec_fr_ids(
                sv.functional_requirements,
            )[k] by {
                if k < i - 1 {
                    assert(fr_ids.deep_view()[k] == pre[k]);
                }
            }
        }
    }
    proof {
        assert(fr_ids.deep_view() =~= spec_fr_ids(sv.functional_requirements));
    }
    let orphans = orphan_tests_public(suite, &fr_ids);

    let total: usize = entries.len();
    let covered = count_status(&entries, TraceabilityStatus::FullyCovered);
    let partially = count_status(&entries, TraceabilityStatus::PartiallyCovered);
    let not_covered = count_status(&entries, TraceabilityStatus::NotCovered);
    let va = count_status(&entries, TraceabilityStatus::VerifiedByAnalysis);
    let vi = count_status(&entries, TraceabilityStatus::VerifiedByInspection);
    let vd = count_status(&entries, TraceabilityStatus::VerifiedByDemo);
    let ghost es = entries.deep_view();

    // the six statuses partition the entries, so the sums stay in range
    proof {
        lemma_status_counts_bounded(es);
    }
    let verified_other: usize = va + vi + vd;

    let pct: u64 = if total == 0 {
        100
    } else {
        let q: u128 = ((total - not_covered) as u128) * 100 / (total as u128);
        proof {
            let x = (total - not_covered) as int;
            let t = total as int;
            assert(x * 100 <= t * 100) by (nonlinear_arith)
                requires
                    x <= t,
            ;
            assert(x * 100 / t <= 100) by (nonlinear_arith)
                requires
                    t > 0 && x * 100 <= t * 100,
            ;
        }
        q as u64
    };
    proof {
        assert(pct as nat == spec_forward_pct(es.len(), spec_count_status(
            es,
            TraceabilityStatus::NotCovered,
        )));
    }

    let all_clean = all_unambiguous(&entries);
    let mut notes: Vec<ComplianceNote> = Vec::new();
    notes.push(
        ComplianceNote {
            standard: String::from_str("ISO/IEC/IEEE 29148:2018"),
            section: String::from_str("6.6 — Traceability"),
            status: if pct >= 100 {
                ComplianceStatus::Compliant
            } else if pct >= 80 {
                ComplianceStatus::PartiallyCompliant
            } else {
                ComplianceStatus::NonCompliant
            },
            details: pct_details("Couverture forward: ", pct, "%"),
        },
    );
    notes.push(
        ComplianceNote {
            standard: String::from_str("ISO/IEC/IEEE 29148:2018"),
            section: String::from_str("5.2.5 — Well-formed requirements"),
            status: if all_clean {
                ComplianceStatus::Compliant
            } else {
                ComplianceStatus::PartiallyCompliant
            },
            details: count_details(total as u64, " exigences dans la matrice"),
        },
    );
    match spec.compliance_profile {
        Some(p) => {
            notes.push(profile_note(p, pct));
        },
        None => {},
    }
    proof {
        assert(notes.deep_view() =~= spec_notes(sv.compliance_profile, pct as nat, es.len(),
            spec_all_unambiguous(es)));
    }

    let summary = TraceabilitySummary {
        total_requirements: total,
        covered,
        partially_covered: partially,
        not_covered,
        verified_other,
        forward_coverage_pct: pct,
        orphan_tests: orphans,
    };
    let r = TraceabilityMatrix { entries, summary, compliance_notes: notes };
    proof {
        assert(r.deep_view().entries =~= spec_matrix(sv, tv).entries);
        assert(r.deep_view().summary == spec_matrix(sv, tv).summary);
        assert(r.deep_view().compliance_notes =~= spec_matrix(sv, tv).compliance_notes);
        assert(r.deep_view() == spec_matrix(sv, tv));
    }
    r
}

/// The per-status counts of a sequence of entries sum to its length.
proof fn lemma_status_counts_bounded(es: Seq<TraceabilityEntryView>)
    ensures
        spec_count_status(es, TraceabilityStatus::FullyCovered) + spec_count_status(
            es,
            TraceabilityStatus::PartiallyCovered,
        ) + spec_count_status(es, TraceabilityStatus::NotCovered) + spec_count_status(
            es,
            TraceabilityStatus::VerifiedByAnalysis,
        ) + spec_count_status(es, TraceabilityStatus::VerifiedByInspection) + spec_count_status(
            es,
            TraceabilityStatus::VerifiedByDemo,
        ) == es.len(),
    decreases es.len(),
{
    if es.len() > 0 {
        lemma_status_counts_bounded(es.drop_first());
    }
}

} // verus!
