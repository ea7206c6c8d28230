//! Quantitative quality metrics and the bidirectional traceability report,
//! with every ratio carried as an integer (percent or permille).

use vstd::prelude::*;
use vstd::string::*;

use crate::specification::{ClarificationView, FunctionalRequirementView, QualityCharacteristic,
    RequirementCategory, RiskLevel, Specification};
use crate::story::{spec_priority_label, Priority};
use crate::test_case::{feature_covered_ids, spec_all_types, spec_covered_ids, FeatureView,
    TestSuite};
use crate::textutil::{contains_string, dedup_strings, seq_contains_str, spec_dedup_strs};
use crate::traceability::{spec_fr_ids, spec_orphans};

verus! {

// ---------------------------------------------------------------------------
// Shared coverage notions
// ---------------------------------------------------------------------------

/// The requirement is covered by an explicit feature link or a scenario's
/// verification link.
pub open spec fn spec_covered_by_links(fs: Seq<FeatureView>, id: Seq<char>) -> bool {
    seq_contains_str(spec_covered_ids(fs), id)
}

/// Gathers every explicitly covered identifier of the suite.
fn collect_covered(suite: &TestSuite) -> (r: Vec<String>)
    ensures
        r.deep_view() == spec_covered_ids(suite.features.deep_view()),
{
    let ghost fs = suite.features.deep_view();
    let mut out: Vec<String> = Vec::new();
    let mut i: usize = 0;
    proof {
        assert(fs.skip(0) =~= fs);
    }
    while i < suite.features.len()
        invariant
            i <= suite.features@.len(),
            fs == suite.features.deep_view(),
            out.deep_view() + spec_covered_ids(fs.skip(i as int)) =~= spec_covered_ids(fs),
        decreases suite.features@.len() - i,
    {
        let ghost rem = fs.skip(i as int);
        proof {
            assert(rem[0] == fs[i as int]);
            assert(rem.drop_first() =~= fs.skip(i + 1));
        }
        let mut chunk = feature_covered_ids(&suite.features[i]);
        out.append(&mut chunk);
        i = i + 1;
        proof {
            assert(out.deep_view() + spec_covered_ids(fs.skip(i as int)) =~= spec_covered_ids(
                fs,
            ));
        }
    }
    proof {
        assert(fs.skip(fs.len() as int) =~= Seq::<FeatureView>::empty());
        assert(out.deep_view() =~= spec_covered_ids(fs));
    }
    out
}

/// An integer ratio: part out of whole scaled by the factor, floored;
/// an empty whole counts as complete.
pub open spec fn spec_ratio(part: nat, whole: nat, scale: nat) -> nat {
    if whole == 0 {
        scale
    } else if part > whole {
        scale
    } else {
        part * scale / (whole as int) as nat
    }
}

fn ratio(part: usize, whole: usize, scale: u64) -> (r: u64)
    requires
        part <= whole,
        scale <= 1000,
    ensures
        r == spec_ratio(part as nat, whole as nat, scale as nat),
        r <= scale,
{
    if whole == 0 {
        scale
    } else {
        proof {
            let p = part as int;
            let s = scale as int;
            assert(p * s <= 0xffff_ffff_ffff_ffff * 1000) by (nonlinear_arith)
                requires
                    0 <= p <= 0xffff_ffff_ffff_ffff && 0 <= s <= 1000,
            ;
        }
        let q: u128 = (part as u128) * (scale as u128) / (whole as u128);
        proof {
            let p = part as int;
            let w = whole as int;
            let s = scale as int;
            assert(p * s <= w * s) by (nonlinear_arith)
                requires
                    p <= w && s >= 0,
            ;
            assert(p * s / w <= s) by (nonlinear_arith)
                requires
                    w > 0 && p * s <= w * s,
            ;
        }
        q as u64
    }
}

// ---------------------------------------------------------------------------
// The bidirectional traceability report
// ---------------------------------------------------------------------------

/// Mathematical model of a `TraceabilityReport`.
pub struct TraceabilityReportView {
    pub forward_coverage_pct: u64,
    pub backward_coverage_pct: u64,
    pub uncovered_requirements: Seq<Seq<char>>,
    pub orphan_tests: Seq<Seq<char>>,
    pub coverage_by_priority: Seq<(Seq<char>, u64)>,
    pub coverage_by_risk: Seq<(Seq<char>, u64)>,
}

/// Coverage in both directions, as integer percentages: requirements
/// towards tests, and tests back towards requirements.
#[derive(Clone, Debug)]
pub struct TraceabilityReport {
    /// Requirements with some covering link, out of all distinct
    /// requirements, percent.
    pub forward_coverage_pct: u64,
    /// Scenarios with some requirement link, out of all scenarios, percent.
    pub backward_coverage_pct: u64,
    /// Distinct requirement identifiers with no covering link, in order.
    pub uncovered_requirements: Vec<String>,
    /// Names of the scenarios with no requirement link, in order.
    pub orphan_tests: Vec<String>,
    /// Coverage percent per present priority, in priority order.
    pub coverage_by_priority: Vec<(String, u64)>,
    /// Coverage percent per present risk level, in level order.
    pub coverage_by_risk: Vec<(String, u64)>,
}

impl DeepView for TraceabilityReport {
    type V = TraceabilityReportView;

    open spec fn deep_view(&self) -> TraceabilityReportView {
        TraceabilityReportView {
            forward_coverage_pct: self.forward_coverage_pct,
            backward_coverage_pct: self.backward_coverage_pct,
            uncovered_requirements: self.uncovered_requirements.deep_view(),
            orphan_tests: self.orphan_tests.deep_view(),
            coverage_by_priority: self.coverage_by_priority.deep_view(),
            coverage_by_risk: self.coverage_by_risk.deep_view(),
        }
    }
}

/// The distinct requirement identifiers with no covering link, in order.
pub open spec fn spec_uncovered(
    uids: Seq<Seq<char>>,
    fs: Seq<FeatureView>,
) -> Seq<Seq<char>>
    decreases uids.len(),
{
    if uids.len() == 0 {
        Seq::<Seq<char>>::empty()
    } else {
        (if !spec_covered_by_links(fs, uids[0]) {
            seq![uids[0]]
        } else {
            Seq::<Seq<char>>::empty()
        }) + spec_uncovered(uids.drop_first(), fs)
    }
}

/// Builds the bidirectional traceability report: forward coverage over the
/// distinct requirement identifiers, backward coverage over the scenarios,
/// the gaps and orphans, and the coverage broken down by priority and risk
/// level (groups actually present only).
#[verifier::rlimit(100)]
pub fn check_bidirectional_traceability(spec: &Specification, suite: &TestSuite) -> (r:
    TraceabilityReport)
    ensures
        ({
            let sv = spec.deep_view();
            let tv = suite.deep_view();
            let uids = spec_dedup_strs(spec_fr_ids(sv.functional_requirements));
            let unc = spec_uncovered(uids, tv.features);
            let orph = spec_orphans(tv.features, spec_fr_ids(sv.functional_requirements));
            let total_scen = spec_all_types(tv.features).len();
            let rd = r.deep_view();
            &&& rd.uncovered_requirements == unc
            &&& rd.orphan_tests == orph
            &&& unc.len() <= uids.len() ==> rd.forward_coverage_pct == spec_ratio(
                (uids.len() - unc.len()) as nat,
                uids.len(),
                100,
            )
            &&& (total_scen <= usize::MAX && orph.len() <= total_scen)
                ==> rd.backward_coverage_pct == spec_ratio(
                (total_scen - orph.len()) as nat,
                total_scen,
                100,
            )
            &&& rd.coverage_by_priority == spec_group_entries(
                sv.functional_requirements,
                spec_covered_ids(tv.features),
                spec_priority_keys(),
            )
            &&& rd.coverage_by_risk == spec_group_entries(
                sv.functional_requirements,
                spec_covered_ids(tv.features),
                spec_risk_keys(),
            )
        }),
{
    let ghost sv = spec.deep_view();
    let ghost tv = suite.deep_view();
    let ghost frs = sv.functional_requirements;
    let ghost fs = tv.features;

    // Distinct requirement identifiers.
    let mut fr_ids: Vec<String> = Vec::new();
    let mut i: usize = 0;
    while i < spec.functional_requirements.len()
        invariant
            i <= spec.functional_requirements@.len(),
            sv == spec.deep_view(),
            frs == sv.functional_requirements,
            fr_ids@.len() == i,
            forall|k: int| 0 <= k < i ==> fr_ids.deep_view()[k] == spec_fr_ids(frs)[k],
        decreases spec.functional_requirements@.len() - i,
    {
        let ghost pre = fr_ids.deep_view();
        crate::dup::push_string(&mut fr_ids, &spec.functional_requirements[i].id);
        i = i + 1;
        proof {
            assert forall|k: int|
                0 <= k < i implies fr_ids.deep_view()[k] == spec_fr_ids(frs)[k] by {
                if k < i - 1 {
                    assert(fr_ids.deep_view()[k] == pre[k]);
                }
            }
        }
    }
    proof {
        assert(fr_ids.deep_view() =~= spec_fr_ids(frs));
    }
    let uids = dedup_strings(&fr_ids);
    let covered = collect_covered(suite);

    // Forward gaps over the distinct identifiers.
    let ghost uidv = uids.deep_view();
    let mut uncovered: Vec<String> = Vec::new();
    let mut i: usize = 0;
    proof {
        assert(uidv.skip(0) =~= uidv);
    }
    while i < uids.len()
        invariant
            i <= uids@.len(),
            uidv == uids.deep_view(),
            covered.deep_view() == spec_covered_ids(fs),
            fs == tv.features,
            tv == suite.deep_view(),
            uncovered@.len() <= i,
            uncovered.deep_view() + spec_uncovered(uidv.skip(i as int), fs) =~= spec_uncovered(
                uidv,
                fs,
            ),
        decreases uids@.len() - i,
    {
        let ghost rem = uidv.skip(i as int);
        proof {
            assert(rem[0] == uidv[i as int]);
            assert(rem.drop_first() =~= uidv.skip(i + 1));
        }
        if !contains_string(&covered, uids[i].as_str()) {
            crate::dup::push_string(&mut uncovered, &uids[i]);
        }
        i = i + 1;
        proof {
            assert(uncovered.deep_view() + spec_uncovered(uidv.skip(i as int), fs)
                =~= spec_uncovered(uidv, fs));
        }
    }
    proof {
        assert(uidv.skip(uidv.len() as int) =~= Seq::<Seq<char>>::empty());
        assert(uncovered.deep_view() =~= spec_uncovered(uidv, fs));
    }
    let n_uids: usize = uids.len();
    let n_unc: usize = uncovered.len();
    let forward_coverage_pct: u64 = if n_unc <= n_uids {
        ratio(n_uids - n_unc, n_uids, 100)
    } else {
        0
    };

    // Backward: orphan scenarios out of the total scenario count.
    let orphan_tests = crate::traceability::orphan_tests_public(suite, &fr_ids);
    let mut total_scen: usize = 0;
    let mut i: usize = 0;
    proof {
        assert(fs.skip(0) =~= fs);
    }
    while i < suite.features.len()
        invariant
            i <= suite.features@.len(),
            tv == suite.deep_view(),
            fs == tv.features,
            spec_all_types(fs).len() <= usize::MAX ==> total_scen + spec_all_types(
                fs.skip(i as int),
            ).len() == spec_all_types(fs).len(),
        decreases suite.features@.len() - i,
    {
        let ghost rem = fs.skip(i as int);
        proof {
            assert(rem[0] == fs[i as int]);
            assert(rem.drop_first() =~= fs.skip(i + 1));
        }
        let n = suite.features[i].scenarios.len();
        proof {
            assert(spec_all_types(fs.skip(i as int)).len() == fs[i as int].scenarios.len()
                + spec_all_types(fs.skip(i + 1)).len());
        }
        total_scen = crate::textutil::sat_add_usize(total_scen, n);
        i = i + 1;
    }
    proof {
        assert(fs.skip(fs.len() as int) =~= Seq::<FeatureView>::empty());
    }
    let n_orph: usize = orphan_tests.len();
    let backward_coverage_pct: u64 = if n_orph <= total_scen {
        ratio(total_scen - n_orph, total_scen, 100)
    } else {
        0
    };

    // Coverage per priority and per risk level, for the groups present.
    let mut coverage_by_priority: Vec<(String, u64)> = Vec::new();
    let ghost cp0 = coverage_by_priority.deep_view();
    push_group_pct(
        &mut coverage_by_priority,
        spec,
        &covered,
        GroupKey::ByPriority(Priority::P1),
    );
    let ghost cp1 = coverage_by_priority.deep_view();
    push_group_pct(
        &mut coverage_by_priority,
        spec,
        &covered,
        GroupKey::ByPriority(Priority::P2),
    );
    let ghost cp2 = coverage_by_priority.deep_view();
    push_group_pct(
        &mut coverage_by_priority,
        spec,
        &covered,
        GroupKey::ByPriority(Priority::P3),
    );
    let mut coverage_by_risk: Vec<(String, u64)> = Vec::new();
    let ghost cr0 = coverage_by_risk.deep_view();
    push_group_pct(&mut coverage_by_risk, spec, &covered, GroupKey::ByRisk(RiskLevel::High));
    let ghost cr1 = coverage_by_risk.deep_view();
    push_group_pct(&mut coverage_by_risk, spec, &covered, GroupKey::ByRisk(RiskLevel::Medium));
    let ghost cr2 = coverage_by_risk.deep_view();
    push_group_pct(&mut coverage_by_risk, spec, &covered, GroupKey::ByRisk(RiskLevel::Low));
    proof {
        reveal_with_fuel(spec_group_entries, 4);
        let cids = spec_covered_ids(fs);
        assert(covered.deep_view() == cids);
        let pk = spec_priority_keys();
        assert(pk.drop_first() =~= seq![
            GroupKey::ByPriority(Priority::P2),
            GroupKey::ByPriority(Priority::P3),
        ]);
        assert(pk.drop_first().drop_first() =~= seq![GroupKey::ByPriority(Priority::P3)]);
        assert(pk.drop_first().drop_first().drop_first() =~= Seq::<GroupKey>::empty());
        assert(cp0 =~= Seq::<(Seq<char>, u64)>::empty());
        assert(coverage_by_priority.deep_view() =~~= spec_group_entries(frs, cids, pk));
        let rk = spec_risk_keys();
        assert(rk.drop_first() =~= seq![
            GroupKey::ByRisk(RiskLevel::Medium),
            GroupKey::ByRisk(RiskLevel::Low),
        ]);
        assert(rk.drop_first().drop_first() =~= seq![GroupKey::ByRisk(RiskLevel::Low)]);
        assert(rk.drop_first().drop_first().drop_first() =~= Seq::<GroupKey>::empty());
        assert(cr0 =~= Seq::<(Seq<char>, u64)>::empty());
        assert(coverage_by_risk.deep_view() =~~= spec_group_entries(frs, cids, rk));
    }

    TraceabilityReport {
        forward_coverage_pct,
        backward_coverage_pct,
        uncovered_requirements: uncovered,
        orphan_tests,
        coverage_by_priority,
        coverage_by_risk,
    }
}

/// A grouping key for the per-group coverage breakdown.
#[derive(Clone, Copy, Debug, PartialEq, Eq, Structural)]
pub enum GroupKey {
    ByPriority(Priority),
    ByRisk(RiskLevel),
}

pub open spec fn spec_in_group(fr: FunctionalRequirementView, key: GroupKey) -> bool {
    match key {
        GroupKey::ByPriority(p) => fr.priority == p,
        GroupKey::ByRisk(rl) => fr.risk_level == Some(rl),
    }
}

pub open spec fn spec_group_label(key: GroupKey) -> Seq<char> {
    match key {
        GroupKey::ByPriority(p) => spec_priority_label(p),
        GroupKey::ByRisk(rl) => match rl {
            RiskLevel::High => "High"@,
            RiskLevel::Medium => "Medium"@,
            RiskLevel::Low => "Low"@,
        },
    }
}

/// How many requirements fall in the group.
pub open spec fn spec_group_members(
    frs: Seq<FunctionalRequirementView>,
    key: GroupKey,
) -> nat
    decreases frs.len(),
{
    if frs.len() == 0 {
        0
    } else {
        (if spec_in_group(frs[0], key) {
            1nat
        } else {
            0nat
        }) + spec_group_members(frs.drop_first(), key)
    }
}

/// How many requirements of the group the covered list names.
pub open spec fn spec_group_hits(
    frs: Seq<FunctionalRequirementView>,
    covered: Seq<Seq<char>>,
    key: GroupKey,
) -> nat
    decreases frs.len(),
{
    if frs.len() == 0 {
        0
    } else {
        (if spec_in_group(frs[0], key) && seq_contains_str(covered, frs[0].id) {
            1nat
        } else {
            0nat
        }) + spec_group_hits(frs.drop_first(), covered, key)
    }
}

/// The per-group coverage entries: one label/percentage pair for each key
/// whose group is nonempty, in key order.
pub open spec fn spec_group_entries(
    frs: Seq<FunctionalRequirementView>,
    covered: Seq<Seq<char>>,
    keys: Seq<GroupKey>,
) -> Seq<(Seq<char>, u64)>
    decreases keys.len(),
{
    if keys.len() == 0 {
        Seq::<(Seq<char>, u64)>::empty()
    } else {
        (if spec_group_members(frs, keys[0]) == 0 {
            Seq::<(Seq<char>, u64)>::empty()
        } else {
            seq![
                (
                    spec_group_label(keys[0]),
                    spec_ratio(
                        spec_group_hits(frs, covered, keys[0]),
                        spec_group_members(frs, keys[0]),
                        100,
                    ) as u64,
                ),
            ]
        }) + spec_group_entries(frs, covered, keys.drop_first())
    }
}

/// The priority groups, highest first.
pub open spec fn spec_priority_keys() -> Seq<GroupKey> {
    seq![
        GroupKey::ByPriority(Priority::P1),
        GroupKey::ByPriority(Priority::P2),
        GroupKey::ByPriority(Priority::P3),
    ]
}

/// The risk groups, highest first.
pub open spec fn spec_risk_keys() -> Seq<GroupKey> {
    seq![
        GroupKey::ByRisk(RiskLevel::High),
        GroupKey::ByRisk(RiskLevel::Medium),
        GroupKey::ByRisk(RiskLevel::Low),
    ]
}

/// Appends the group's coverage percentage when the group is nonempty:
/// covered members out of all members; an empty group adds nothing.
fn push_group_pct(
    out: &mut Vec<(String, u64)>,
    spec: &Specification,
    covered: &Vec<String>,
    key: GroupKey,
)
    ensures
        ({
            let frs = spec.functional_requirements.deep_view();
            let m = spec_group_members(frs, key);
            &&& m == 0 ==> final(out)@ == old(out)@
            &&& m > 0 ==> final(out).deep_view() == old(out).deep_view().push(
                (
                    spec_group_label(key),
                    spec_ratio(spec_group_hits(frs, covered.deep_view(), key), m, 100) as u64,
                ),
            )
        }),
{
    let ghost frs = spec.functional_requirements.deep_view();
    let ghost cv = covered.deep_view();
    let mut members: usize = 0;
    let mut hit: usize = 0;
    let mut i: usize = 0;
    proof {
        assert(frs.skip(0) =~= frs);
    }
    while i < spec.functional_requirements.len()
        invariant
            i <= spec.functional_requirements@.len(),
            frs == spec.functional_requirements.deep_view(),
            cv == covered.deep_view(),
            hit <= members <= i,
            members + spec_group_members(frs.skip(i as int), key) == spec_group_members(
                frs,
                key,
            ),
            hit + spec_group_hits(frs.skip(i as int), cv, key) == spec_group_hits(
                frs,
                cv,
                key,
            ),
        decreases spec.functional_requirements@.len() - i,
    {
        let ghost rem = frs.skip(i as int);
        proof {
            assert(rem[0] == frs[i as int]);
            assert(rem.drop_first() =~= frs.skip(i + 1));
        }
        let fr = &spec.functional_requirements[i];
        proof {
            assert(fr.deep_view() == frs[i as int]);
        }
        let in_group: bool = match key {
            GroupKey::ByPriority(p) => fr.priority == p,
            GroupKey::ByRisk(rl) => match fr.risk_level {
                Some(x) => x == rl,
                None => false,
            },
        };
        proof {
            assert(in_group == spec_in_group(frs[i as int], key));
        }
        if in_group {
            members = members + 1;
            if contains_string(covered, fr.id.as_str()) {
                hit = hit + 1;
            }
        }
        i = i + 1;
    }
    proof {
        assert(frs.skip(frs.len() as int) =~= Seq::<FunctionalRequirementView>::empty());
    }
    if members > 0 {
        let label: &'static str = match key {
            GroupKey::ByPriority(p) => p.label(),
            GroupKey::ByRisk(RiskLevel::High) => "High",
            GroupKey::ByRisk(RiskLevel::Medium) => "Medium",
            GroupKey::ByRisk(RiskLevel::Low) => "Low",
        };
        let ghost opre = out.deep_view();
        out.push((String::from_str(label), ratio(hit, members, 100)));
        proof {
            assert(label@ == spec_group_label(key));
            assert(out.deep_view() =~~= opre.push(
                (
                    spec_group_label(key),
                    spec_ratio(spec_group_hits(frs, cv, key), spec_group_members(frs, key), 100)
                        as u64,
                ),
            ));
        }
    }
}

// ---------------------------------------------------------------------------
// Quality metrics
// ---------------------------------------------------------------------------

/// Mathematical model of a `QualityMetrics`.
pub struct QualityMetricsView {
    pub functional_completeness: u64,
    pub requirement_stability: u64,
    pub test_adequacy_ratio: u64,
    pub risk_coverage: u64,
    pub nfr_coverage: u64,
    pub overall_score: u64,
}

/// Quantitative quality metrics, all carried in permille (0-1000 except the
/// adequacy ratio, which is scenarios per requirement in permille).
#[derive(Clone, Debug)]
pub struct QualityMetrics {
    /// Covered requirements out of all requirements.
    pub functional_completeness: u64,
    /// Requirements not challenged by open clarifications.
    pub requirement_stability: u64,
    /// Scenarios per requirement.
    pub test_adequacy_ratio: u64,
    /// Covered top-priority requirements out of all top-priority ones.
    pub risk_coverage: u64,
    /// Distinct quality characteristics named, out of the nine.
    pub nfr_coverage: u64,
    /// Weighted aggregate of the five.
    pub overall_score: u64,
}

impl DeepView for QualityMetrics {
    type V = QualityMetricsView;

    open spec fn deep_view(&self) -> QualityMetricsView {
        QualityMetricsView {
            functional_completeness: self.functional_completeness,
            requirement_stability: self.requirement_stability,
            test_adequacy_ratio: self.test_adequacy_ratio,
            risk_coverage: self.risk_coverage,
            nfr_coverage: self.nfr_coverage,
            overall_score: self.overall_score,
        }
    }
}

/// The weighted aggregate: completeness 30%, stability 15%, adequacy capped
/// at three scenarios per requirement 20%, risk 25%, quality characteristics
/// 10%.
pub open spec fn spec_overall(
    fc: u64,
    st: u64,
    ta: u64,
    rc: u64,
    nfr: u64,
) -> int {
    (fc * 30 + st * 15 + (if ta / 3 > 1000 {
        1000
    } else {
        (ta / 3) as int
    }) * 20 + rc * 25 + nfr * 10) / 100
}

/// How many requirement identifiers the covered list names.
pub open spec fn spec_covered_count(
    frs: Seq<FunctionalRequirementView>,
    covered: Seq<Seq<char>>,
) -> nat
    decreases frs.len(),
{
    if frs.len() == 0 {
        0
    } else {
        (if seq_contains_str(covered, frs[0].id) {
            1nat
        } else {
            0nat
        }) + spec_covered_count(frs.drop_first(), covered)
    }
}

/// How many clarifications are still unresolved.
pub open spec fn spec_unresolved_count(cls: Seq<ClarificationView>) -> nat
    decreases cls.len(),
{
    if cls.len() == 0 {
        0
    } else {
        (if !cls[0].resolved {
            1nat
        } else {
            0nat
        }) + spec_unresolved_count(cls.drop_first())
    }
}

/// The nine quality characteristics, counted once each when some
/// non-functional requirement declares them.
pub open spec fn spec_qc_count(frs: Seq<FunctionalRequirementView>) -> int {
    (if spec_qc_present(frs, QualityCharacteristic::FunctionalSuitability) { 1int } else { 0int })
        + (if spec_qc_present(frs, QualityCharacteristic::PerformanceEfficiency) { 1int } else { 0int })
        + (if spec_qc_present(frs, QualityCharacteristic::Compatibility) { 1int } else { 0int })
        + (if spec_qc_present(frs, QualityCharacteristic::InteractionCapability) { 1int } else { 0int })
        + (if spec_qc_present(frs, QualityCharacteristic::Reliability) { 1int } else { 0int })
        + (if spec_qc_present(frs, QualityCharacteristic::Security) { 1int } else { 0int })
        + (if spec_qc_present(frs, QualityCharacteristic::Maintainability) { 1int } else { 0int })
        + (if spec_qc_present(frs, QualityCharacteristic::Flexibility) { 1int } else { 0int })
        + (if spec_qc_present(frs, QualityCharacteristic::Safety) { 1int } else { 0int })
}

/// Some requirement in the group declares this quality characteristic.
pub open spec fn spec_qc_present(
    frs: Seq<FunctionalRequirementView>,
    qc: QualityCharacteristic,
) -> bool {
    exists|i: int|
        0 <= i < frs.len() && (#[trigger] frs[i]).category == RequirementCategory::NonFunctional
            && frs[i].quality_characteristic == Some(qc)
}

fn qc_present(spec: &Specification, qc: QualityCharacteristic) -> (r: bool)
    ensures
        r == spec_qc_present(spec.deep_view().functional_requirements, qc),
{
    let ghost frs = spec.deep_view().functional_requirements;
    let mut i: usize = 0;
    while i < spec.functional_requirements.len()
        invariant
            i <= spec.functional_requirements@.len(),
            frs == spec.deep_view().functional_requirements,
            forall|k: int|
                0 <= k < i ==> !((#[trigger] frs[k]).category
                    == RequirementCategory::NonFunctional && frs[k].quality_characteristic
                    == Some(qc)),
        decreases spec.functional_requirements@.len() - i,
    {
        let fr = &spec.functional_requirements[i];
        let has: bool = match fr.quality_characteristic {
            Some(x) => x == qc,
            None => false,
        };
        if fr.category == RequirementCategory::NonFunctional && has {
            proof {
                assert(frs[i as int].category == RequirementCategory::NonFunctional
                    && frs[i as int].quality_characteristic == Some(qc));
            }
            return true;
        }
        i = i + 1;
    }
    false
}

/// Computes the quality metrics of a specification and its suite; every
/// ratio is exact integer arithmetic in permille: covered requirements out
/// of all, one minus the unresolved-clarification pressure, scenarios per
/// requirement, covered top-priority requirements, and the distinct quality
/// characteristics named out of the nine.
#[verifier::rlimit(100)]
pub fn compute_quality_metrics(spec: &Specification, suite: &TestSuite) -> (r: QualityMetrics)
    ensures
        ({
            let frs = spec.deep_view().functional_requirements;
            let cls = spec.deep_view().clarifications_needed;
            let cids = spec_covered_ids(suite.features.deep_view());
            let n = frs.len();
            let rd = r.deep_view();
            &&& rd.functional_completeness == spec_ratio(spec_covered_count(frs, cids), n, 1000)
            &&& rd.requirement_stability == (if n == 0 {
                1000int
            } else {
                1000 - (if spec_unresolved_count(cls) >= n {
                    1000int
                } else {
                    spec_ratio(spec_unresolved_count(cls), n, 1000) as int
                })
            })
            &&& (spec_all_types(suite.features.deep_view()).len() <= usize::MAX && n > 0)
                ==> rd.test_adequacy_ratio as int == (if spec_all_types(
                suite.features.deep_view(),
            ).len() as int * 1000 / (n as int) > u64::MAX as int {
                u64::MAX as int
            } else {
                spec_all_types(suite.features.deep_view()).len() as int * 1000 / (n as int)
            })
            &&& n == 0 ==> rd.test_adequacy_ratio == 0
            &&& rd.risk_coverage == spec_ratio(
                spec_group_hits(frs, cids, GroupKey::ByPriority(Priority::P1)),
                spec_group_members(frs, GroupKey::ByPriority(Priority::P1)),
                1000,
            )
            &&& rd.nfr_coverage as int == spec_qc_count(frs) * 1000 / 9
        }),
        r.deep_view().overall_score as int == spec_overall(
            r.deep_view().functional_completeness,
            r.deep_view().requirement_stability,
            r.deep_view().test_adequacy_ratio,
            r.deep_view().risk_coverage,
            r.deep_view().nfr_coverage,
        ),
        r.deep_view().functional_completeness <= 1000,
        r.deep_view().requirement_stability <= 1000,
        r.deep_view().risk_coverage <= 1000,
        r.deep_view().nfr_coverage <= 1000,
{
    let ghost frsv = spec.deep_view().functional_requirements;
    let ghost clsv = spec.deep_view().clarifications_needed;
    let ghost fsv = suite.features.deep_view();
    let ghost p1key = GroupKey::ByPriority(Priority::P1);
    let covered = collect_covered(suite);
    let ghost cids = covered.deep_view();
    let total_fr: usize = spec.functional_requirements.len();

    // Covered requirement count.
    let mut covered_count: usize = 0;
    let mut p1_total: usize = 0;
    let mut p1_covered: usize = 0;
    let mut i: usize = 0;
    proof {
        assert(frsv.skip(0) =~= frsv);
    }
    while i < spec.functional_requirements.len()
        invariant
            i <= spec.functional_requirements@.len(),
            frsv == spec.deep_view().functional_requirements,
            cids == covered.deep_view(),
            p1key == GroupKey::ByPriority(Priority::P1),
            covered_count <= i,
            p1_covered <= p1_total <= i,
            covered_count + spec_covered_count(frsv.skip(i as int), cids) == spec_covered_count(
                frsv,
                cids,
            ),
            p1_total + spec_group_members(frsv.skip(i as int), p1key) == spec_group_members(
                frsv,
                p1key,
            ),
            p1_covered + spec_group_hits(frsv.skip(i as int), cids, p1key) == spec_group_hits(
                frsv,
                cids,
                p1key,
            ),
        decreases spec.functional_requirements@.len() - i,
    {
        let ghost rem = frsv.skip(i as int);
        proof {
            assert(rem[0] == frsv[i as int]);
            assert(rem.drop_first() =~= frsv.skip(i + 1));
        }
        let fr = &spec.functional_requirements[i];
        proof {
            assert(fr.deep_view() == frsv[i as int]);
        }
        let hit = contains_string(&covered, fr.id.as_str());
        if hit {
            covered_count = covered_count + 1;
        }
        if fr.priority == Priority::P1 {
            p1_total = p1_total + 1;
            if hit {
                p1_covered = p1_covered + 1;
            }
        }
        proof {
            assert(frsv[i as int].priority == fr.priority);
            assert(spec_in_group(frsv[i as int], GroupKey::ByPriority(Priority::P1)) == (
            frsv[i as int].priority == Priority::P1));
            assert(p1key == GroupKey::ByPriority(Priority::P1));
        }
        i = i + 1;
    }
    proof {
        assert(frsv.skip(frsv.len() as int) =~= Seq::<FunctionalRequirementView>::empty());
    }
    let functional_completeness: u64 = ratio(covered_count, total_fr, 1000);

    // Stability against open clarifications.
    let mut unresolved: usize = 0;
    let mut i: usize = 0;
    proof {
        assert(clsv.skip(0) =~= clsv);
    }
    while i < spec.clarifications_needed.len()
        invariant
            i <= spec.clarifications_needed@.len(),
            clsv == spec.deep_view().clarifications_needed,
            unresolved <= i,
            unresolved + spec_unresolved_count(clsv.skip(i as int)) == spec_unresolved_count(
                clsv,
            ),
        decreases spec.clarifications_needed@.len() - i,
    {
        let ghost rem = clsv.skip(i as int);
        proof {
            assert(rem[0] == clsv[i as int]);
            assert(rem.drop_first() =~= clsv.skip(i + 1));
        }
        if !spec.clarifications_needed[i].resolved {
            unresolved = unresolved + 1;
        }
        i = i + 1;
    }
    proof {
        assert(clsv.skip(clsv.len() as int) =~= Seq::<ClarificationView>::empty());
    }
    let requirement_stability: u64 = if total_fr == 0 {
        1000
    } else {
        let pressure: u64 = if unresolved >= total_fr {
            1000
        } else {
            ratio(unresolved, total_fr, 1000)
        };
        1000 - pressure
    };

    // Scenarios per requirement.
    let mut total_scen: usize = 0;
    let mut i: usize = 0;
    proof {
        assert(fsv.skip(0) =~= fsv);
    }
    while i < suite.features.len()
        invariant
            i <= suite.features@.len(),
            fsv == suite.features.deep_view(),
            spec_all_types(fsv).len() <= usize::MAX ==> total_scen + spec_all_types(
                fsv.skip(i as int),
            ).len() == spec_all_types(fsv).len(),
        decreases suite.features@.len() - i,
    {
        let ghost rem = fsv.skip(i as int);
        proof {
            assert(rem[0] == fsv[i as int]);
            assert(rem.drop_first() =~= fsv.skip(i + 1));
            assert(spec_all_types(fsv.skip(i as int)).len() == fsv[i as int].scenarios.len()
                + spec_all_types(fsv.skip(i + 1)).len());
        }
        total_scen = crate::textutil::sat_add_usize(total_scen, suite.features[i].scenarios.len());
        i = i + 1;
    }
    proof {
        assert(fsv.skip(fsv.len() as int) =~= Seq::<FeatureView>::empty());
    }
    let test_adequacy_ratio: u64 = if total_fr == 0 {
        0
    } else {
        let q: u128 = (total_scen as u128) * 1000 / (total_fr as u128);
        if q > u64::MAX as u128 {
            u64::MAX
        } else {
            q as u64
        }
    };

    let risk_coverage: u64 = ratio(p1_covered, p1_total, 1000);

    // Distinct declared quality characteristics, out of the nine.
    let mut qc_count: u64 = 0;
    if qc_present(spec, QualityCharacteristic::FunctionalSuitability) {
        qc_count = qc_count + 1;
    }
    if qc_present(spec, QualityCharacteristic::PerformanceEfficiency) {
        qc_count = qc_count + 1;
    }
    if qc_present(spec, QualityCharacteristic::Compatibility) {
        qc_count = qc_count + 1;
    }
    if qc_present(spec, QualityCharacteristic::InteractionCapability) {
        qc_count = qc_count + 1;
    }
    if qc_present(spec, QualityCharacteristic::Reliability) {
        qc_count = qc_count + 1;
    }
    if qc_present(spec, QualityCharacteristic::Security) {
        qc_count = qc_count + 1;
    }
    if qc_present(spec, QualityCharacteristic::Maintainability) {
        qc_count = qc_count + 1;
    }
    if qc_present(spec, QualityCharacteristic::Flexibility) {
        qc_count = qc_count + 1;
    }
    if qc_present(spec, QualityCharacteristic::Safety) {
        qc_count = qc_count + 1;
    }
    let nfr_coverage: u64 = qc_count * 1000 / 9;

    let capped_ta: u64 = if test_adequacy_ratio / 3 > 1000 {
        1000
    } else {
        test_adequacy_ratio / 3
    };
    let overall_score: u64 = (functional_completeness * 30 + requirement_stability * 15
        + capped_ta * 20 + risk_coverage * 25 + nfr_coverage * 10) / 100;

    QualityMetrics {
        functional_completeness,
        requirement_stability,
        test_adequacy_ratio,
        risk_coverage,
        nfr_coverage,
        overall_score,
    }
}

} // verus!
