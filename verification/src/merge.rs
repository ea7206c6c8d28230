//! Merge & remap: combines per-batch results into one artifact set with
//! globally unique, dense, sequential identifiers and rewritten
//! cross-references. A first pass builds the global old-to-new mapping over
//! the whole input, so references into any batch (including later ones)
//! resolve; a reference to an identifier nowhere in the input is cleared.

use vstd::prelude::*;
use vstd::string::*;

use crate::idmap::{spec_fr_id, spec_lookup, spec_sc_id, spec_us_id, fr_id_string, sc_id_string,
    us_id_string, IdMap, lemma_fr_id_injective, lemma_us_id_injective, lemma_lookup_in_values};
use crate::specification::{Clarification, ClarificationView, EdgeCase, EdgeCaseView,
    FunctionalRequirement, FunctionalRequirementView, KeyEntity, KeyEntityView, Specification,
    SpecificationView, SpecStatus, SuccessCriterion, SuccessCriterionView, UserScenario,
    UserScenarioView};
use crate::test_case::{Feature, FeatureView, ScenarioCounts, TestCoverage, TestSuite,
    TestSuiteView};
use crate::textutil::{chars_to_string, push_u64_digits, sat_add_usize, spec_digits,
    spec_sat_add_usize, to_chars};

verus! {

// ---------------------------------------------------------------------------
// Concatenation of the batches' contents
// ---------------------------------------------------------------------------

pub open spec fn spec_all_frs(specs: Seq<SpecificationView>) -> Seq<FunctionalRequirementView>
    decreases specs.len(),
{
    if specs.len() == 0 {
        Seq::<FunctionalRequirementView>::empty()
    } else {
        specs[0].functional_requirements + spec_all_frs(specs.drop_first())
    }
}

pub open spec fn spec_all_us(specs: Seq<SpecificationView>) -> Seq<UserScenarioView>
    decreases specs.len(),
{
    if specs.len() == 0 {
        Seq::<UserScenarioView>::empty()
    } else {
        specs[0].user_scenarios + spec_all_us(specs.drop_first())
    }
}

pub open spec fn spec_all_sc(specs: Seq<SpecificationView>) -> Seq<SuccessCriterionView>
    decreases specs.len(),
{
    if specs.len() == 0 {
        Seq::<SuccessCriterionView>::empty()
    } else {
        specs[0].success_criteria + spec_all_sc(specs.drop_first())
    }
}

pub open spec fn spec_all_ec(specs: Seq<SpecificationView>) -> Seq<EdgeCaseView>
    decreases specs.len(),
{
    if specs.len() == 0 {
        Seq::<EdgeCaseView>::empty()
    } else {
        specs[0].edge_cases + spec_all_ec(specs.drop_first())
    }
}

pub open spec fn spec_all_entities(specs: Seq<SpecificationView>) -> Seq<KeyEntityView>
    decreases specs.len(),
{
    if specs.len() == 0 {
        Seq::<KeyEntityView>::empty()
    } else {
        specs[0].key_entities + spec_all_entities(specs.drop_first())
    }
}

pub open spec fn spec_all_clarifs(specs: Seq<SpecificationView>) -> Seq<ClarificationView>
    decreases specs.len(),
{
    if specs.len() == 0 {
        Seq::<ClarificationView>::empty()
    } else {
        specs[0].clarifications_needed + spec_all_clarifs(specs.drop_first())
    }
}

pub open spec fn spec_all_sources(specs: Seq<SpecificationView>) -> Seq<u128>
    decreases specs.len(),
{
    if specs.len() == 0 {
        Seq::<u128>::empty()
    } else {
        specs[0].source_stories + spec_all_sources(specs.drop_first())
    }
}

/// Total number of source stories over the batches, saturating.
pub open spec fn spec_total_stories(specs: Seq<SpecificationView>) -> usize {
    spec_fold_stories(0, specs)
}

// ---------------------------------------------------------------------------
// The global mapping of the first pass
// ---------------------------------------------------------------------------

/// The old-to-new pairs the first pass records for requirements: the j-th
/// requirement's old identifier maps to the (j+1)-th new identifier.
pub open spec fn spec_fr_pairs(frs: Seq<FunctionalRequirementView>) -> Seq<
    (Seq<char>, Seq<char>),
> {
    Seq::new(frs.len(), |j: int| (frs[j].id, spec_fr_id((j + 1) as nat)))
}

/// The old-to-new pairs for user scenarios.
pub open spec fn spec_us_pairs(us: Seq<UserScenarioView>) -> Seq<(Seq<char>, Seq<char>)> {
    Seq::new(us.len(), |j: int| (us[j].id, spec_us_id((j + 1) as nat)))
}

/// What a parent link is rewritten to: the global mapping's entry, or
/// nothing when the old identifier is unknown.
pub open spec fn spec_remap(
    pairs: Seq<(Seq<char>, Seq<char>)>,
    link: Option<Seq<char>>,
) -> Option<Seq<char>> {
    match link {
        Option::Some(p) => spec_lookup(pairs, p),
        Option::None => Option::None,
    }
}

// ---------------------------------------------------------------------------
// Laws of the renumbering
// ---------------------------------------------------------------------------

/// Renumbered requirement identifiers are pairwise distinct: a sequence
/// whose i-th identifier is the (i+1)-th requirement identifier has no
/// duplicates.
pub proof fn lemma_merged_fr_ids_unique(frs: Seq<FunctionalRequirementView>)
    requires
        forall|i: int| 0 <= i < frs.len() ==> frs[i].id == spec_fr_id((i + 1) as nat),
    ensures
        forall|i: int, j: int|
            0 <= i < frs.len() && 0 <= j < frs.len() && i != j ==> frs[i].id != frs[j].id,
{
    assert forall|i: int, j: int|
        0 <= i < frs.len() && 0 <= j < frs.len() && i != j implies frs[i].id != frs[j].id by {
        lemma_fr_id_injective((i + 1) as nat, (j + 1) as nat);
    }
}

/// Renumbered scenario identifiers are pairwise distinct.
pub proof fn lemma_merged_us_ids_unique(us: Seq<UserScenarioView>)
    requires
        forall|i: int| 0 <= i < us.len() ==> us[i].id == spec_us_id((i + 1) as nat),
    ensures
        forall|i: int, j: int|
            0 <= i < us.len() && 0 <= j < us.len() && i != j ==> us[i].id != us[j].id,
{
    assert forall|i: int, j: int|
        0 <= i < us.len() && 0 <= j < us.len() && i != j implies us[i].id != us[j].id by {
        lemma_us_id_injective((i + 1) as nat, (j + 1) as nat);
    }
}

/// Every rewritten link resolves inside the final identifier set or is
/// empty: a looked-up value is one of the new identifiers.
pub proof fn lemma_remap_resolves(
    frs: Seq<FunctionalRequirementView>,
    link: Option<Seq<char>>,
)
    ensures
        match spec_remap(spec_fr_pairs(frs), link) {
            Option::Some(v) => exists|j: int|
                0 <= j < frs.len() && v == #[trigger] spec_fr_id((j + 1) as nat),
            Option::None => true,
        },
{
    match link {
        Option::Some(p) => {
            lemma_lookup_in_values(spec_fr_pairs(frs), p);
            match spec_lookup(spec_fr_pairs(frs), p) {
                Option::Some(v) => {
                    let j = choose|j: int|
                        0 <= j < spec_fr_pairs(frs).len() && spec_fr_pairs(frs)[j].1 == v;
                    assert(v == spec_fr_id((j + 1) as nat));
                },
                Option::None => {},
            }
        },
        Option::None => {},
    }
}

// ---------------------------------------------------------------------------
// The merge itself
// ---------------------------------------------------------------------------

/// Gathers the specs' contents into single ordered vectors.
fn drain_specs(specs: Vec<Specification>) -> (r: (
    Vec<FunctionalRequirement>,
    Vec<UserScenario>,
    Vec<SuccessCriterion>,
    Vec<EdgeCase>,
    Vec<KeyEntity>,
    Vec<Clarification>,
    Vec<u128>,
    usize,
))
    ensures
        r.0.deep_view() == spec_all_frs(specs.deep_view()),
        r.1.deep_view() == spec_all_us(specs.deep_view()),
        r.2.deep_view() == spec_all_sc(specs.deep_view()),
        r.3.deep_view() == spec_all_ec(specs.deep_view()),
        r.4.deep_view() == spec_all_entities(specs.deep_view()),
        r.5.deep_view() == spec_all_clarifs(specs.deep_view()),
        r.6.deep_view() == spec_all_sources(specs.deep_view()),
        r.7 == spec_total_stories(specs.deep_view()),
{
    let ghost orig = specs.deep_view();
    let mut specs = specs;
    let mut frs: Vec<FunctionalRequirement> = Vec::new();
    let mut us: Vec<UserScenario> = Vec::new();
    let mut sc: Vec<SuccessCriterion> = Vec::new();
    let mut ec: Vec<EdgeCase> = Vec::new();
    let mut ent: Vec<KeyEntity> = Vec::new();
    let mut cl: Vec<Clarification> = Vec::new();
    let mut src: Vec<u128> = Vec::new();
    let mut stories: usize = 0;
    while specs.len() > 0
        invariant
            frs.deep_view() + spec_all_frs(specs.deep_view()) =~= spec_all_frs(orig),
            us.deep_view() + spec_all_us(specs.deep_view()) =~= spec_all_us(orig),
            sc.deep_view() + spec_all_sc(specs.deep_view()) =~= spec_all_sc(orig),
            ec.deep_view() + spec_all_ec(specs.deep_view()) =~= spec_all_ec(orig),
            ent.deep_view() + spec_all_entities(specs.deep_view()) =~= spec_all_entities(orig),
            cl.deep_view() + spec_all_clarifs(specs.deep_view()) =~= spec_all_clarifs(orig),
            src.deep_view() + spec_all_sources(specs.deep_view()) =~= spec_all_sources(orig),
            spec_fold_stories(stories, specs.deep_view()) == spec_total_stories(orig),
        decreases specs@.len(),
    {
        let ghost before = specs.deep_view();
        let mut s = specs.remove(0);
        proof {
            assert(specs.deep_view() =~= before.drop_first());
            assert(s.deep_view() == before[0]);
        }
        stories = sat_add_usize(stories, s.source_stories.len());
        frs.append(&mut s.functional_requirements);
        us.append(&mut s.user_scenarios);
        sc.append(&mut s.success_criteria);
        ec.append(&mut s.edge_cases);
        ent.append(&mut s.key_entities);
        cl.append(&mut s.clarifications_needed);
        src.append(&mut s.source_stories);
        proof {
            assert(frs.deep_view() + spec_all_frs(specs.deep_view()) =~= spec_all_frs(orig));
            assert(us.deep_view() + spec_all_us(specs.deep_view()) =~= spec_all_us(orig));
            assert(sc.deep_view() + spec_all_sc(specs.deep_view()) =~= spec_all_sc(orig));
            assert(ec.deep_view() + spec_all_ec(specs.deep_view()) =~= spec_all_ec(orig));
            assert(ent.deep_view() + spec_all_entities(specs.deep_view()) =~= spec_all_entities(
                orig,
            ));
            assert(cl.deep_view() + spec_all_clarifs(specs.deep_view()) =~= spec_all_clarifs(
                orig,
            ));
            assert(src.deep_view() + spec_all_sources(specs.deep_view()) =~= spec_all_sources(
                orig,
            ));
        }
    }
    proof {
        assert(frs.deep_view() =~= spec_all_frs(orig));
        assert(us.deep_view() =~= spec_all_us(orig));
        assert(sc.deep_view() =~= spec_all_sc(orig));
        assert(ec.deep_view() =~= spec_all_ec(orig));
        assert(ent.deep_view() =~= spec_all_entities(orig));
        assert(cl.deep_view() =~= spec_all_clarifs(orig));
        assert(src.deep_view() =~= spec_all_sources(orig));
    }
    (frs, us, sc, ec, ent, cl, src, stories)
}

/// Folding helper tying the running story count to the total.
pub open spec fn spec_fold_stories(acc: usize, specs: Seq<SpecificationView>) -> usize
    decreases specs.len(),
{
    if specs.len() == 0 {
        acc
    } else {
        spec_fold_stories(
            spec_sat_add_usize(acc, crate::textutil::spec_cap_usize(specs[0].source_stories.len())),
            specs.drop_first(),
        )
    }
}

/// The title of a merged specification.
pub open spec fn spec_merged_title(total_stories: usize) -> Seq<char> {
    "Specification ("@ + spec_digits(total_stories as nat) + " User Stories)"@
}

pub fn merged_title(total_stories: usize) -> (r: String)
    ensures
        r@ == spec_merged_title(total_stories),
{
    let mut v = to_chars("Specification (");
    push_u64_digits(total_stories as u64, &mut v);
    let mut tail = to_chars(" User Stories)");
    v.append(&mut tail);
    let s = chars_to_string(&v);
    proof {
        assert(s@ =~= spec_merged_title(total_stories));
    }
    s
}

/// Fields of a requirement other than the identifier and the parent link.
pub open spec fn fr_body_eq(a: FunctionalRequirementView, b: FunctionalRequirementView) -> bool {
    a.statement == b.statement && a.priority == b.priority && a.category == b.category
        && a.testable == b.testable && a.rationale == b.rationale && a.source == b.source
        && a.verification_method == b.verification_method && a.risk_level == b.risk_level
        && a.allocated_to == b.allocated_to && a.quality_characteristic
        == b.quality_characteristic
}

/// Fields of a scenario other than the identifier.
pub open spec fn us_body_eq(a: UserScenarioView, b: UserScenarioView) -> bool {
    a.title == b.title && a.priority == b.priority && a.description == b.description
        && a.why_priority == b.why_priority && a.independent_test == b.independent_test
        && a.acceptance_scenarios == b.acceptance_scenarios && a.source_story_id
        == b.source_story_id
}

/// Fields of an edge case other than the related-scenario link.
pub open spec fn ec_body_eq(a: EdgeCaseView, b: EdgeCaseView) -> bool {
    a.description == b.description && a.severity == b.severity
}

/// Merges per-batch specifications into one, renumbering identifiers
/// densely and sequentially across the whole input and rewriting every
/// cross-reference through the global mapping; a reference to an identifier
/// that exists nowhere in the input is cleared. An empty input gives the
/// empty specification; a single batch is returned unchanged.
/// What merging two or more specifications produces, apart from the fresh
/// draft status: renumbered requirements and scenarios with their bodies
/// kept in order, parent and related-scenario references remapped, and the
/// entities, clarifications and sources concatenated.
pub open spec fn spec_merged_from(sv: Seq<SpecificationView>, rd: SpecificationView) -> bool {
    let frs0 = spec_all_frs(sv);
    let us0 = spec_all_us(sv);
    let sc0 = spec_all_sc(sv);
    let ec0 = spec_all_ec(sv);
    &&& rd.title == spec_merged_title(spec_total_stories(sv))
    &&& rd.functional_requirements.len() == frs0.len()
    &&& forall|i: int|
        0 <= i < frs0.len() ==> (#[trigger] rd.functional_requirements[i]).id == spec_fr_id(
            (i + 1) as nat,
        ) && fr_body_eq(rd.functional_requirements[i], frs0[i])
            && rd.functional_requirements[i].parent_requirement == spec_remap(
            spec_fr_pairs(frs0),
            frs0[i].parent_requirement,
        )
    &&& rd.user_scenarios.len() == us0.len()
    &&& forall|i: int|
        0 <= i < us0.len() ==> (#[trigger] rd.user_scenarios[i]).id == spec_us_id((i + 1) as nat)
            && us_body_eq(rd.user_scenarios[i], us0[i])
    &&& rd.success_criteria.len() == sc0.len()
    &&& forall|i: int|
        0 <= i < sc0.len() ==> (#[trigger] rd.success_criteria[i]).id == spec_sc_id(
            (i + 1) as nat,
        ) && rd.success_criteria[i].description == sc0[i].description
            && rd.success_criteria[i].measurable_metric == sc0[i].measurable_metric
    &&& rd.edge_cases.len() == ec0.len()
    &&& forall|i: int|
        0 <= i < ec0.len() ==> ec_body_eq(#[trigger] rd.edge_cases[i], ec0[i])
            && rd.edge_cases[i].related_scenario == spec_remap(
            spec_us_pairs(us0),
            ec0[i].related_scenario,
        )
    &&& rd.key_entities == spec_all_entities(sv)
    &&& rd.clarifications_needed == spec_all_clarifs(sv)
    &&& rd.source_stories == spec_all_sources(sv)
}

/// Being a merge result depends only on the merged content, not on the
/// status or validation fields.
pub proof fn lemma_merged_from_same_content(
    sv: Seq<SpecificationView>,
    a: SpecificationView,
    b: SpecificationView,
)
    requires
        spec_merged_from(sv, a),
        b.title == a.title,
        b.functional_requirements == a.functional_requirements,
        b.user_scenarios == a.user_scenarios,
        b.success_criteria == a.success_criteria,
        b.edge_cases == a.edge_cases,
        b.key_entities == a.key_entities,
        b.clarifications_needed == a.clarifications_needed,
        b.source_stories == a.source_stories,
    ensures
        spec_merged_from(sv, b),
{
    let frs0 = spec_all_frs(sv);
    let us0 = spec_all_us(sv);
    let sc0 = spec_all_sc(sv);
    let ec0 = spec_all_ec(sv);
    assert forall|i: int|
        0 <= i < frs0.len() implies b.functional_requirements[i].id == spec_fr_id((i + 1) as nat)
        && fr_body_eq(b.functional_requirements[i], frs0[i])
        && b.functional_requirements[i].parent_requirement == spec_remap(
        spec_fr_pairs(frs0),
        frs0[i].parent_requirement,
    ) by {
        assert(a.functional_requirements[i].id == spec_fr_id((i + 1) as nat) && fr_body_eq(
            a.functional_requirements[i],
            frs0[i],
        ) && a.functional_requirements[i].parent_requirement == spec_remap(
            spec_fr_pairs(frs0),
            frs0[i].parent_requirement,
        ));
        assert(b.functional_requirements[i] == a.functional_requirements[i]);
    }
    assert forall|i: int|
        0 <= i < us0.len() implies b.user_scenarios[i].id == spec_us_id((i + 1) as nat)
        && us_body_eq(b.user_scenarios[i], us0[i]) by {
        assert(a.user_scenarios[i].id == spec_us_id((i + 1) as nat) && us_body_eq(
            a.user_scenarios[i],
            us0[i],
        ));
        assert(b.user_scenarios[i] == a.user_scenarios[i]);
    }
    assert forall|i: int|
        0 <= i < sc0.len() implies b.success_criteria[i].id == spec_sc_id((i + 1) as nat)
        && b.success_criteria[i].description == sc0[i].description
        && b.success_criteria[i].measurable_metric == sc0[i].measurable_metric by {
        assert(a.success_criteria[i].id == spec_sc_id((i + 1) as nat)
            && a.success_criteria[i].description == sc0[i].description
            && a.success_criteria[i].measurable_metric == sc0[i].measurable_metric);
        assert(b.success_criteria[i] == a.success_criteria[i]);
    }
    assert forall|i: int|
        0 <= i < ec0.len() implies ec_body_eq(b.edge_cases[i], ec0[i])
        && b.edge_cases[i].related_scenario == spec_remap(
        spec_us_pairs(us0),
        ec0[i].related_scenario,
    ) by {
        assert(ec_body_eq(a.edge_cases[i], ec0[i]) && a.edge_cases[i].related_scenario
            == spec_remap(spec_us_pairs(us0), ec0[i].related_scenario));
        assert(b.edge_cases[i] == a.edge_cases[i]);
    }
}

pub fn merge_specifications(specs: Vec<Specification>) -> (r: Specification)
    ensures
        specs@.len() == 0 ==> r.title@ == "Empty"@ && r.functional_requirements@.len() == 0
            && r.user_scenarios@.len() == 0 && r.status == SpecStatus::Draft
            && r.validation is None && r.clarifications_needed@.len() == 0,
        specs@.len() == 1 ==> r.deep_view() == specs.deep_view()[0],
        specs@.len() >= 2 ==> spec_merged_from(specs.deep_view(), r.deep_view())
            && r.status == SpecStatus::Draft && r.validation is None,
{
    let ghost sv = specs.deep_view();
    if specs.len() == 0 {
        return Specification::new(String::from_str("Empty"));
    }
    if specs.len() == 1 {
        let mut specs = specs;
        let single = specs.remove(0);
        proof {
            assert(single.deep_view() == sv[0]);
        }
        return single;
    }
    let (mut frs, mut us, mut sc, mut ec, ent, cl, src, total_stories) = drain_specs(specs);
    let ghost frs0 = spec_all_frs(sv);
    let ghost us0 = spec_all_us(sv);
    let nfr: usize = frs.len();
    let nus: usize = us.len();
    let nsc: usize = sc.len();
    let nec: usize = ec.len();
    proof {
        assert(frs0.len() == nfr && us0.len() == nus);
    }

    // First pass: the global old-to-new mapping over the whole input.
    let mut fr_map = IdMap::new();
    let mut i: usize = 0;
    while i < frs.len()
        invariant
            i <= frs@.len(),
            frs.deep_view() == frs0,
            frs0.len() <= usize::MAX,
            fr_map.pairs@.len() == i,
            forall|k: int|
                0 <= k < i ==> fr_map.pairs.deep_view()[k] == (
                    frs0[k].id,
                    spec_fr_id((k + 1) as nat),
                ),
        decreases frs@.len() - i,
    {
        let n: usize = i + 1;
        let new_id = fr_id_string(n as u64);
        fr_map.insert(frs[i].id.clone(), new_id);
        i = i + 1;
        proof {
            assert(fr_map.pairs.deep_view()[i - 1] == (frs0[i - 1].id, spec_fr_id(i as nat)));
        }
    }
    proof {
        assert(fr_map.pairs.deep_view() =~= spec_fr_pairs(frs0));
    }
    let ghost fr_pairs = fr_map.pairs.deep_view();

    let mut us_map = IdMap::new();
    let mut i: usize = 0;
    while i < us.len()
        invariant
            i <= us@.len(),
            us.deep_view() == us0,
            us0.len() <= usize::MAX,
            us_map.pairs@.len() == i,
            forall|k: int|
                0 <= k < i ==> us_map.pairs.deep_view()[k] == (
                    us0[k].id,
                    spec_us_id((k + 1) as nat),
                ),
        decreases us@.len() - i,
    {
        let n: usize = i + 1;
        let new_id = us_id_string(n as u64);
        us_map.insert(us[i].id.clone(), new_id);
        i = i + 1;
        proof {
            assert(us_map.pairs.deep_view()[i - 1] == (us0[i - 1].id, spec_us_id(i as nat)));
        }
    }
    proof {
        assert(us_map.pairs.deep_view() =~= spec_us_pairs(us0));
    }
    let ghost us_pairs = us_map.pairs.deep_view();

    // Second pass: renumber and rewrite the cross-references.
    let mut out_frs: Vec<FunctionalRequirement> = Vec::new();
    while frs.len() > 0
        invariant
            fr_pairs == fr_map.pairs.deep_view(),
            fr_pairs == spec_fr_pairs(frs0),
            frs0.len() <= usize::MAX,
            out_frs@.len() + frs@.len() == frs0.len(),
            frs.deep_view() =~= frs0.skip(out_frs@.len() as int),
            forall|k: int|
                0 <= k < out_frs@.len() ==> out_frs.deep_view()[k].id == spec_fr_id(
                    (k + 1) as nat,
                ) && fr_body_eq(out_frs.deep_view()[k], frs0[k])
                    && out_frs.deep_view()[k].parent_requirement == spec_remap(
                    fr_pairs,
                    frs0[k].parent_requirement,
                ),
        decreases frs@.len(),
    {
        let ghost done = out_frs@.len() as int;
        let ghost before = frs.deep_view();
        let mut fr = frs.remove(0);
        proof {
            assert(frs.deep_view() =~= before.drop_first());
            assert(fr.deep_view() == before[0]);
            assert(before[0] == frs0[done]);
            assert(frs.deep_view() =~= frs0.skip(done + 1));
        }
        let new_parent: Option<String> = match &fr.parent_requirement {
            Some(p) => fr_map.get(p.as_str()),
            None => None,
        };
        fr.parent_requirement = new_parent;
        let n: usize = out_frs.len() + 1;
        fr.id = fr_id_string(n as u64);
        let ghost fv = fr.deep_view();
        let ghost pre = out_frs.deep_view();
        out_frs.push(fr);
        proof {
            assert forall|k: int|
                0 <= k < out_frs@.len() implies out_frs.deep_view()[k].id == spec_fr_id(
                (k + 1) as nat,
            ) && fr_body_eq(out_frs.deep_view()[k], frs0[k]) && out_frs.deep_view()[
                k
            ].parent_requirement == spec_remap(fr_pairs, frs0[k].parent_requirement) by {
                if k < done {
                    assert(out_frs.deep_view()[k] == pre[k]);
                } else {
                    assert(out_frs.deep_view()[k] == fv);
                }
            }
        }
    }
    proof {
        assert(frs0.skip(frs0.len() as int) =~= Seq::<FunctionalRequirementView>::empty());
    }

    let mut out_us: Vec<UserScenario> = Vec::new();
    let ghost mut usv: Seq<UserScenarioView> = Seq::<UserScenarioView>::empty();
    proof {
        assert(out_us.deep_view() =~= usv);
    }
    while us.len() > 0
        invariant
            us0.len() <= usize::MAX,
            out_us@.len() + us@.len() == us0.len(),
            us.deep_view() =~= us0.skip(out_us@.len() as int),
            usv == out_us.deep_view(),
            usv.len() == out_us@.len(),
            forall|k: int|
                0 <= k < usv.len() ==> (#[trigger] usv[k]).id == spec_us_id((k + 1) as nat)
                    && us_body_eq(usv[k], us0[k]),
        decreases us@.len(),
    {
        let ghost done = out_us@.len() as int;
        let ghost before = us.deep_view();
        let mut u = us.remove(0);
        proof {
            assert(us.deep_view() =~= before.drop_first());
            assert(u.deep_view() == before[0]);
            assert(before[0] == us0[done]);
            assert(us.deep_view() =~= us0.skip(done + 1));
        }
        let n: usize = out_us.len() + 1;
        u.id = us_id_string(n as u64);
        let ghost uv = u.deep_view();
        proof {
            assert(uv.id == spec_us_id((done + 1) as nat));
            assert(us_body_eq(uv, us0[done]));
        }
        out_us.push(u);
        proof {
            let prev = usv;
            usv = usv.push(uv);
            assert(out_us.deep_view() =~= usv);
            assert forall|k: int|
                0 <= k < usv.len() implies (#[trigger] usv[k]).id == spec_us_id((k + 1) as nat)
                && us_body_eq(usv[k], us0[k]) by {
                if k < done {
                    assert(usv[k] == prev[k]);
                } else {
                    assert(usv[k] == uv);
                }
            }
        }
    }

    let ghost sc0 = spec_all_sc(sv);
    let mut out_sc: Vec<SuccessCriterion> = Vec::new();
    let ghost mut scv: Seq<SuccessCriterionView> = Seq::<SuccessCriterionView>::empty();
    proof {
        assert(out_sc.deep_view() =~= scv);
    }
    while sc.len() > 0
        invariant
            sc0.len() <= usize::MAX,
            out_sc@.len() + sc@.len() == sc0.len(),
            sc.deep_view() =~= sc0.skip(out_sc@.len() as int),
            scv == out_sc.deep_view(),
            scv.len() == out_sc@.len(),
            forall|k: int|
                0 <= k < scv.len() ==> (#[trigger] scv[k]).id == spec_sc_id((k + 1) as nat)
                    && scv[k].description == sc0[k].description && scv[k].measurable_metric
                    == sc0[k].measurable_metric,
        decreases sc@.len(),
    {
        let ghost done = out_sc@.len() as int;
        let ghost before = sc.deep_view();
        let mut c = sc.remove(0);
        proof {
            assert(sc.deep_view() =~= before.drop_first());
            assert(c.deep_view() == before[0]);
            assert(before[0] == sc0[done]);
            assert(sc.deep_view() =~= sc0.skip(done + 1));
        }
        let n: usize = out_sc.len() + 1;
        c.id = sc_id_string(n as u64);
        let ghost cv = c.deep_view();
        proof {
            assert(cv.id == spec_sc_id((done + 1) as nat));
        }
        out_sc.push(c);
        proof {
            let prev = scv;
            scv = scv.push(cv);
            assert(out_sc.deep_view() =~= scv);
            assert forall|k: int|
                0 <= k < scv.len() implies (#[trigger] scv[k]).id == spec_sc_id((k + 1) as nat)
                && scv[k].description == sc0[k].description && scv[k].measurable_metric == sc0[
                k
            ].measurable_metric by {
                if k < done {
                    assert(scv[k] == prev[k]);
                } else {
                    assert(scv[k] == cv);
                }
            }
        }
    }

    let ghost ec0 = spec_all_ec(sv);
    let mut out_ec: Vec<EdgeCase> = Vec::new();
    while ec.len() > 0
        invariant
            us_pairs == us_map.pairs.deep_view(),
            us_pairs == spec_us_pairs(us0),
            ec0.len() <= usize::MAX,
            out_ec@.len() + ec@.len() == ec0.len(),
            ec.deep_view() =~= ec0.skip(out_ec@.len() as int),
            forall|k: int|
                0 <= k < out_ec@.len() ==> ec_body_eq(out_ec.deep_view()[k], ec0[k])
                    && out_ec.deep_view()[k].related_scenario == spec_remap(
                    us_pairs,
                    ec0[k].related_scenario,
                ),
        decreases ec@.len(),
    {
        let ghost done = out_ec@.len() as int;
        let ghost before = ec.deep_view();
        let mut e = ec.remove(0);
        proof {
            assert(ec.deep_view() =~= before.drop_first());
            assert(e.deep_view() == before[0]);
            assert(before[0] == ec0[done]);
            assert(ec.deep_view() =~= ec0.skip(done + 1));
        }
        let new_rel: Option<String> = match &e.related_scenario {
            Some(p) => us_map.get(p.as_str()),
            None => None,
        };
        e.related_scenario = new_rel;
        let ghost evw = e.deep_view();
        let ghost pre = out_ec.deep_view();
        out_ec.push(e);
        proof {
            assert forall|k: int|
                0 <= k < out_ec@.len() implies ec_body_eq(out_ec.deep_view()[k], ec0[k])
                && out_ec.deep_view()[k].related_scenario == spec_remap(
                us_pairs,
                ec0[k].related_scenario,
            ) by {
                if k < done {
                    assert(out_ec.deep_view()[k] == pre[k]);
                } else {
                    assert(out_ec.deep_view()[k] == evw);
                }
            }
        }
    }

    let mut merged = Specification::new(merged_title(total_stories));
    merged.functional_requirements = out_frs;
    merged.user_scenarios = out_us;
    merged.success_criteria = out_sc;
    merged.edge_cases = out_ec;
    merged.key_entities = ent;
    merged.clarifications_needed = cl;
    merged.source_stories = src;
    merged
}

// ---------------------------------------------------------------------------
// Merging test suites
// ---------------------------------------------------------------------------

pub open spec fn spec_all_features(suites: Seq<TestSuiteView>) -> Seq<FeatureView>
    decreases suites.len(),
{
    if suites.len() == 0 {
        Seq::<FeatureView>::empty()
    } else {
        suites[0].features + spec_all_features(suites.drop_first())
    }
}

/// Total scenario count over the suites, saturating.
pub open spec fn spec_fold_totals(acc: usize, suites: Seq<TestSuiteView>) -> usize
    decreases suites.len(),
{
    if suites.len() == 0 {
        acc
    } else {
        spec_fold_totals(
            spec_sat_add_usize(acc, suites[0].total_scenarios),
            suites.drop_first(),
        )
    }
}

/// Combines per-batch test suites into one: features concatenated in order,
/// scenario totals added, coverage left to be recomputed.
pub fn merge_test_suites(suites: Vec<TestSuite>) -> (r: TestSuite)
    ensures
        r.features.deep_view() == spec_all_features(suites.deep_view()),
        r.total_scenarios == spec_fold_totals(0, suites.deep_view()),
        r.source_spec_id == 0,
        r.coverage.requirements_covered@.len() == 0,
        r.coverage.requirements_total == 0,
        r.coverage.coverage_percentage == 0,
{
    let ghost orig = suites.deep_view();
    let mut suites = suites;
    let mut features: Vec<Feature> = Vec::new();
    let mut total_scenarios: usize = 0;
    while suites.len() > 0
        invariant
            features.deep_view() + spec_all_features(suites.deep_view()) =~= spec_all_features(
                orig,
            ),
            spec_fold_totals(total_scenarios, suites.deep_view()) == spec_fold_totals(0, orig),
        decreases suites@.len(),
    {
        let ghost before = suites.deep_view();
        let mut s = suites.remove(0);
        proof {
            assert(suites.deep_view() =~= before.drop_first());
            assert(s.deep_view() == before[0]);
        }
        total_scenarios = sat_add_usize(total_scenarios, s.total_scenarios);
        features.append(&mut s.features);
        proof {
            assert(features.deep_view() + spec_all_features(suites.deep_view())
                =~= spec_all_features(orig));
        }
    }
    proof {
        assert(features.deep_view() =~= spec_all_features(orig));
    }
    TestSuite {
        features,
        source_spec_id: 0,
        total_scenarios,
        coverage: TestCoverage {
            requirements_covered: Vec::new(),
            requirements_total: 0,
            coverage_percentage: 0,
            scenarios_by_type: ScenarioCounts {
                happy_path: 0,
                edge_case: 0,
                error_scenario: 0,
                boundary: 0,
            },
        },
    }
}

} // verus!
