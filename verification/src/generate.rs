//! Test-generation service: batches a specification's scenarios under a
//! token budget (every batch carries all requirements as shared context),
//! drives the batches through the retried exchange with midpoint splitting
//! on cut-short responses, merges the suites, and runs bounded gap-fill
//! passes over the requirements still uncovered.

use vstd::prelude::*;
use vstd::string::*;
use std::collections::VecDeque;

use crate::dup::{dup_opt, dup_vec, Duplicate};
use crate::errors::{GenerationError, LlmRetryError};
use crate::executor::{call_with_retry, LlmPort, OutputDecoder};
use crate::llm_output::{FeatureInputView, GherkinScenarioInputView, StepInput, StepInputView,
    TestOutput};
use crate::merge::merge_test_suites;
use crate::parse::{parse_coverage_technique, parse_keyword, parse_scenario_type,
    parse_test_level, spec_parse_coverage_technique, spec_parse_keyword,
    spec_parse_scenario_type, spec_parse_test_level};
use crate::refine::PromptTemplates;
use crate::specification::{EdgeCase, EdgeCaseView, FunctionalRequirement, Specification,
    SpecificationView, UserScenario, UserScenarioView};
use crate::story::{Language, spec_priority_label};
use crate::test_case::{Background, Examples, Feature, Scenario, Step, TestLevel, TestSuite};
use crate::test_case::spec_coverage_fresh;
use crate::textutil::{chars_to_string, contains_string, sat_add_usize, seq_contains_str,
    spec_cap_usize, spec_sat_add_usize, string_eq_str, to_chars};
use crate::wellformed::validate_specification;

verus! {

// ---------------------------------------------------------------------------
// Cost model
// ---------------------------------------------------------------------------

/// Cost of one acceptance scenario: its three parts' characters, by four.
pub open spec fn spec_acceptance_cost(a: crate::specification::AcceptanceScenarioView) -> usize {
    spec_sat_add_usize(
        spec_sat_add_usize(spec_cap_usize(a.given.len()), spec_cap_usize(a.when.len())),
        spec_cap_usize(a.then_.len()),
    ) / 4
}

pub open spec fn spec_fold_acceptance(
    acc: usize,
    acs: Seq<crate::specification::AcceptanceScenarioView>,
) -> usize
    decreases acs.len(),
{
    if acs.len() == 0 {
        acc
    } else {
        spec_fold_acceptance(
            spec_sat_add_usize(acc, spec_acceptance_cost(acs[0])),
            acs.drop_first(),
        )
    }
}

/// Cost of one user scenario: title and description by four, plus its
/// acceptance scenarios' costs.
pub open spec fn spec_scenario_cost(us: UserScenarioView) -> usize {
    spec_fold_acceptance(
        spec_sat_add_usize(spec_cap_usize(us.title.len()), spec_cap_usize(us.description.len()))
            / 4,
        us.acceptance_scenarios,
    )
}

/// Base cost shared by every batch: each requirement's identifier and
/// statement, by four.
pub open spec fn spec_fold_fr_base(
    acc: usize,
    frs: Seq<crate::specification::FunctionalRequirementView>,
) -> usize
    decreases frs.len(),
{
    if frs.len() == 0 {
        acc
    } else {
        spec_fold_fr_base(
            spec_sat_add_usize(
                acc,
                spec_sat_add_usize(
                    spec_cap_usize(frs[0].id.len()),
                    spec_cap_usize(frs[0].statement.len()),
                ) / 4,
            ),
            frs.drop_first(),
        )
    }
}

pub open spec fn spec_fr_base(
    frs: Seq<crate::specification::FunctionalRequirementView>,
) -> usize {
    spec_fold_fr_base(0, frs)
}

fn acceptance_cost(a: &crate::specification::AcceptanceScenario) -> (r: usize)
    ensures
        r == spec_acceptance_cost(a.deep_view()),
{
    sat_add_usize(
        sat_add_usize(a.given.as_str().unicode_len(), a.when.as_str().unicode_len()),
        a.then_.as_str().unicode_len(),
    ) / 4
}

fn scenario_cost(us: &UserScenario) -> (r: usize)
    ensures
        r == spec_scenario_cost(us.deep_view()),
{
    let ghost uv = us.deep_view();
    let mut acc: usize = sat_add_usize(
        us.title.as_str().unicode_len(),
        us.description.as_str().unicode_len(),
    ) / 4;
    let mut i: usize = 0;
    proof {
        assert(uv.acceptance_scenarios.skip(0) =~= uv.acceptance_scenarios);
    }
    while i < us.acceptance_scenarios.len()
        invariant
            i <= us.acceptance_scenarios@.len(),
            uv == us.deep_view(),
            spec_fold_acceptance(acc, uv.acceptance_scenarios.skip(i as int))
                == spec_scenario_cost(uv),
        decreases us.acceptance_scenarios@.len() - i,
    {
        let ghost rem = uv.acceptance_scenarios.skip(i as int);
        proof {
            assert(rem[0] == uv.acceptance_scenarios[i as int]);
            assert(rem.drop_first() =~= uv.acceptance_scenarios.skip(i + 1));
        }
        acc = sat_add_usize(acc, acceptance_cost(&us.acceptance_scenarios[i]));
        i = i + 1;
    }
    proof {
        assert(uv.acceptance_scenarios.skip(uv.acceptance_scenarios.len() as int)
            =~= Seq::<crate::specification::AcceptanceScenarioView>::empty());
    }
    acc
}

fn fr_base_cost(spec: &Specification) -> (r: usize)
    ensures
        r == spec_fr_base(spec.functional_requirements.deep_view()),
{
    let ghost fv = spec.functional_requirements.deep_view();
    let mut acc: usize = 0;
    let mut i: usize = 0;
    proof {
        assert(fv.skip(0) =~= fv);
    }
    while i < spec.functional_requirements.len()
        invariant
            i <= spec.functional_requirements@.len(),
            fv == spec.functional_requirements.deep_view(),
            spec_fold_fr_base(acc, fv.skip(i as int)) == spec_fr_base(fv),
        decreases spec.functional_requirements@.len() - i,
    {
        let ghost rem = fv.skip(i as int);
        proof {
            assert(rem[0] == fv[i as int]);
            assert(rem.drop_first() =~= fv.skip(i + 1));
        }
        let fr = &spec.functional_requirements[i];
        let cost = sat_add_usize(
            fr.id.as_str().unicode_len(),
            fr.statement.as_str().unicode_len(),
        ) / 4;
        acc = sat_add_usize(acc, cost);
        i = i + 1;
    }
    proof {
        assert(fv.skip(fv.len() as int) =~= Seq::<
            crate::specification::FunctionalRequirementView,
        >::empty());
    }
    acc
}

/// Whole-specification cost for the single-batch check: every scenario's
/// text, every requirement, every edge case, by four at the end.
pub open spec fn spec_fold_spec_chars(acc: usize, sv: SpecificationView) -> usize {
    spec_fold_ec_chars(
        spec_fold_fr_chars(spec_fold_us_chars(acc, sv.user_scenarios), sv.functional_requirements),
        sv.edge_cases,
    )
}

pub open spec fn spec_fold_us_chars(acc: usize, us: Seq<UserScenarioView>) -> usize
    decreases us.len(),
{
    if us.len() == 0 {
        acc
    } else {
        spec_fold_us_chars(
            spec_fold_ac_chars(
                spec_sat_add_usize(
                    acc,
                    spec_sat_add_usize(
                        spec_cap_usize(us[0].title.len()),
                        spec_cap_usize(us[0].description.len()),
                    ),
                ),
                us[0].acceptance_scenarios,
            ),
            us.drop_first(),
        )
    }
}

pub open spec fn spec_fold_ac_chars(
    acc: usize,
    acs: Seq<crate::specification::AcceptanceScenarioView>,
) -> usize
    decreases acs.len(),
{
    if acs.len() == 0 {
        acc
    } else {
        spec_fold_ac_chars(
            spec_sat_add_usize(
                acc,
                spec_sat_add_usize(
                    spec_sat_add_usize(
                        spec_cap_usize(acs[0].given.len()),
                        spec_cap_usize(acs[0].when.len()),
                    ),
                    spec_cap_usize(acs[0].then_.len()),
                ),
            ),
            acs.drop_first(),
        )
    }
}

pub open spec fn spec_fold_fr_chars(
    acc: usize,
    frs: Seq<crate::specification::FunctionalRequirementView>,
) -> usize
    decreases frs.len(),
{
    if frs.len() == 0 {
        acc
    } else {
        spec_fold_fr_chars(
            spec_sat_add_usize(
                acc,
                spec_sat_add_usize(
                    spec_cap_usize(frs[0].id.len()),
                    spec_cap_usize(frs[0].statement.len()),
                ),
            ),
            frs.drop_first(),
        )
    }
}

pub open spec fn spec_fold_ec_chars(acc: usize, ecs: Seq<EdgeCaseView>) -> usize
    decreases ecs.len(),
{
    if ecs.len() == 0 {
        acc
    } else {
        spec_fold_ec_chars(
            spec_sat_add_usize(acc, spec_cap_usize(ecs[0].description.len())),
            ecs.drop_first(),
        )
    }
}

/// Estimates the token cost of a whole specification for one request.
pub fn estimate_spec_tokens(spec: &Specification) -> (r: usize)
    ensures
        r == spec_fold_spec_chars(0, spec.deep_view()) / 4,
{
    let ghost sv = spec.deep_view();
    let mut acc: usize = 0;
    let ghost usv = sv.user_scenarios;
    let mut i: usize = 0;
    proof {
        assert(usv.skip(0) =~= usv);
    }
    while i < spec.user_scenarios.len()
        invariant
            i <= spec.user_scenarios@.len(),
            sv == spec.deep_view(),
            usv == sv.user_scenarios,
            spec_fold_us_chars(acc, usv.skip(i as int)) == spec_fold_us_chars(0, usv),
        decreases spec.user_scenarios@.len() - i,
    {
        let ghost rem = usv.skip(i as int);
        proof {
            assert(rem[0] == usv[i as int]);
            assert(rem.drop_first() =~= usv.skip(i + 1));
        }
        let us = &spec.user_scenarios[i];
        acc = sat_add_usize(
            acc,
            sat_add_usize(us.title.as_str().unicode_len(), us.description.as_str().unicode_len()),
        );
        let ghost acs = us.deep_view().acceptance_scenarios;
        let mut k: usize = 0;
        proof {
            assert(acs.skip(0) =~= acs);
        }
        while k < us.acceptance_scenarios.len()
            invariant
                k <= us.acceptance_scenarios@.len(),
                acs == us.deep_view().acceptance_scenarios,
                usv == sv.user_scenarios,
                i < usv.len(),
                us.deep_view() == usv[i as int],
                spec_fold_us_chars(spec_fold_ac_chars(acc, acs.skip(k as int)), usv.skip(i + 1))
                    == spec_fold_us_chars(0, usv),
            decreases us.acceptance_scenarios@.len() - k,
        {
            let ghost arem = acs.skip(k as int);
            proof {
                assert(arem[0] == acs[k as int]);
                assert(arem.drop_first() =~= acs.skip(k + 1));
            }
            let a = &us.acceptance_scenarios[k];
            acc = sat_add_usize(
                acc,
                sat_add_usize(
                    sat_add_usize(a.given.as_str().unicode_len(), a.when.as_str().unicode_len()),
                    a.then_.as_str().unicode_len(),
                ),
            );
            k = k + 1;
        }
        proof {
            assert(acs.skip(acs.len() as int) =~= Seq::<
                crate::specification::AcceptanceScenarioView,
            >::empty());
        }
        i = i + 1;
    }
    proof {
        assert(usv.skip(usv.len() as int) =~= Seq::<UserScenarioView>::empty());
    }
    let ghost fv = sv.functional_requirements;
    let mut i: usize = 0;
    proof {
        assert(fv.skip(0) =~= fv);
    }
    while i < spec.functional_requirements.len()
        invariant
            i <= spec.functional_requirements@.len(),
            sv == spec.deep_view(),
            fv == sv.functional_requirements,
            spec_fold_fr_chars(acc, fv.skip(i as int)) == spec_fold_fr_chars(
                spec_fold_us_chars(0, sv.user_scenarios),
                fv,
            ),
        decreases spec.functional_requirements@.len() - i,
    {
        let ghost rem = fv.skip(i as int);
        proof {
            assert(rem[0] == fv[i as int]);
            assert(rem.drop_first() =~= fv.skip(i + 1));
        }
        let fr = &spec.functional_requirements[i];
        acc = sat_add_usize(
            acc,
            sat_add_usize(fr.id.as_str().unicode_len(), fr.statement.as_str().unicode_len()),
        );
        i = i + 1;
    }
    proof {
        assert(fv.skip(fv.len() as int) =~= Seq::<
            crate::specification::FunctionalRequirementView,
        >::empty());
    }
    let ghost ev = sv.edge_cases;
    let mut i: usize = 0;
    proof {
        assert(ev.skip(0) =~= ev);
    }
    while i < spec.edge_cases.len()
        invariant
            i <= spec.edge_cases@.len(),
            sv == spec.deep_view(),
            ev == sv.edge_cases,
            spec_fold_ec_chars(acc, ev.skip(i as int)) == spec_fold_spec_chars(0, sv),
        decreases spec.edge_cases@.len() - i,
    {
        let ghost rem = ev.skip(i as int);
        proof {
            assert(rem[0] == ev[i as int]);
            assert(rem.drop_first() =~= ev.skip(i + 1));
        }
        acc = sat_add_usize(acc, spec.edge_cases[i].description.as_str().unicode_len());
        i = i + 1;
    }
    proof {
        assert(ev.skip(ev.len() as int) =~= Seq::<EdgeCaseView>::empty());
    }
    acc / 4
}


// ---------------------------------------------------------------------------
// Scenario batching
// ---------------------------------------------------------------------------

/// The edge cases travelling with a set of scenarios: untied cases and the
/// cases tied to one of them, in the original edge-case order.
pub open spec fn spec_related_edges(
    ecs: Seq<EdgeCaseView>,
    scens: Seq<UserScenarioView>,
) -> Seq<EdgeCaseView>
    decreases ecs.len(),
{
    if ecs.len() == 0 {
        Seq::<EdgeCaseView>::empty()
    } else {
        (if spec_edge_travels(ecs[0], scens) {
            seq![ecs[0]]
        } else {
            Seq::<EdgeCaseView>::empty()
        }) + spec_related_edges(ecs.drop_first(), scens)
    }
}

/// An edge case travels with the batch when it is untied, or tied to one of
/// the batch's scenarios.
pub open spec fn spec_edge_travels(ec: EdgeCaseView, scens: Seq<UserScenarioView>) -> bool {
    match ec.related_scenario {
        Option::None => true,
        Option::Some(id) => exists|k: int| 0 <= k < scens.len() && (#[trigger] scens[k]).id == id,
    }
}

fn edge_travels(ec: &EdgeCase, scens: &Vec<UserScenario>) -> (r: bool)
    ensures
        r == spec_edge_travels(ec.deep_view(), scens.deep_view()),
{
    match &ec.related_scenario {
        None => true,
        Some(id) => {
            proof {
                assert(ec.deep_view().related_scenario == Option::Some(id@));
            }
            let mut k: usize = 0;
            while k < scens.len()
                invariant
                    k <= scens@.len(),
                    ec.deep_view().related_scenario == Option::Some(id@),
                    forall|m: int|
                        0 <= m < k ==> (#[trigger] scens.deep_view()[m]).id != ec.deep_view().related_scenario->Some_0,
                decreases scens@.len() - k,
            {
                if string_eq_str(&scens[k].id, id.as_str()) {
                    proof {
                        assert(scens.deep_view()[k as int].id == id@);
                    }
                    return true;
                }
                proof {
                    assert(scens.deep_view()[k as int].id != id@);
                }
                k = k + 1;
            }
            false
        },
    }
}

fn select_edges(spec: &Specification, scens: &Vec<UserScenario>) -> (r: Vec<EdgeCase>)
    ensures
        r.deep_view() == spec_related_edges(spec.edge_cases.deep_view(), scens.deep_view()),
{
    let ghost ev = spec.edge_cases.deep_view();
    let ghost scv = scens.deep_view();
    let mut out: Vec<EdgeCase> = Vec::new();
    let mut i: usize = 0;
    proof {
        assert(ev.skip(0) =~= ev);
    }
    while i < spec.edge_cases.len()
        invariant
            i <= spec.edge_cases@.len(),
            ev == spec.edge_cases.deep_view(),
            scv == scens.deep_view(),
            out.deep_view() + spec_related_edges(ev.skip(i as int), scv) =~= spec_related_edges(
                ev,
                scv,
            ),
        decreases spec.edge_cases@.len() - i,
    {
        let ghost rem = ev.skip(i as int);
        proof {
            assert(rem[0] == ev[i as int]);
            assert(rem.drop_first() =~= ev.skip(i + 1));
        }
        if edge_travels(&spec.edge_cases[i], scens) {
            let e = spec.edge_cases[i].duplicate();
            let ghost edv = e.deep_view();
            let ghost pre = out.deep_view();
            out.push(e);
            proof {
                assert(out.deep_view() =~= pre.push(edv));
            }
        }
        i = i + 1;
        proof {
            assert(out.deep_view() + spec_related_edges(ev.skip(i as int), scv)
                =~= spec_related_edges(ev, scv));
        }
    }
    proof {
        assert(ev.skip(ev.len() as int) =~= Seq::<EdgeCaseView>::empty());
        assert(out.deep_view() =~= spec_related_edges(ev, scv));
    }
    out
}

/// A batch: the given scenarios, their travelling edge cases, and the full
/// requirement set of the source specification.
pub fn materialize_batch(spec: &Specification, scens: Vec<UserScenario>) -> (r: Specification)
    ensures
        r.user_scenarios.deep_view() == scens.deep_view(),
        r.functional_requirements.deep_view() == spec.functional_requirements.deep_view(),
        r.edge_cases.deep_view() == spec_related_edges(
            spec.edge_cases.deep_view(),
            scens.deep_view(),
        ),
{
    let edge_cases = select_edges(spec, &scens);
    let mut batch = spec.duplicate();
    batch.user_scenarios = scens;
    batch.edge_cases = edge_cases;
    batch
}

/// Running cost of a batch: the shared base plus each scenario's cost,
/// saturating.
pub open spec fn spec_fold_scen_costs(acc: usize, ss: Seq<UserScenarioView>) -> usize
    decreases ss.len(),
{
    if ss.len() == 0 {
        acc
    } else {
        spec_fold_scen_costs(
            spec_sat_add_usize(acc, spec_scenario_cost(ss[0])),
            ss.drop_first(),
        )
    }
}

proof fn lemma_fold_scen_push(acc: usize, ss: Seq<UserScenarioView>, x: UserScenarioView)
    ensures
        spec_fold_scen_costs(acc, ss.push(x)) == spec_sat_add_usize(
            spec_fold_scen_costs(acc, ss),
            spec_scenario_cost(x),
        ),
    decreases ss.len(),
{
    assert(ss.push(x)[0] == if ss.len() == 0 {
        x
    } else {
        ss[0]
    });
    assert(spec_fold_scen_costs(acc, ss.push(x)) == spec_fold_scen_costs(
        spec_sat_add_usize(acc, spec_scenario_cost(ss.push(x)[0])),
        ss.push(x).drop_first(),
    ));
    if ss.len() == 0 {
        assert(ss.push(x).drop_first() =~= Seq::<UserScenarioView>::empty());
        assert(spec_fold_scen_costs(
            spec_sat_add_usize(acc, spec_scenario_cost(x)),
            Seq::<UserScenarioView>::empty(),
        ) == spec_sat_add_usize(acc, spec_scenario_cost(x)));
    } else {
        assert(ss.push(x).drop_first() =~= ss.drop_first().push(x));
        lemma_fold_scen_push(spec_sat_add_usize(acc, spec_scenario_cost(ss[0])), ss.drop_first(), x);
    }
}

/// The per-batch scenario lists of a split.
pub open spec fn spec_us_lists(bd: Seq<SpecificationView>) -> Seq<Seq<UserScenarioView>> {
    Seq::new(bd.len(), |b: int| bd[b].user_scenarios)
}

/// The greedy split's cost rules over the batches' scenario lists: every
/// batch is nonempty; a batch of several scenarios fits the budget with the
/// shared base cost; and each batch was closed because the next batch's
/// first scenario would not fit.
pub open spec fn spec_split_costs_ok(
    base: usize,
    uss: Seq<Seq<UserScenarioView>>,
    token_budget: usize,
) -> bool {
    &&& forall|b: int| 0 <= b < uss.len() ==> (#[trigger] uss[b]).len() > 0
    &&& forall|b: int|
        0 <= b < uss.len() && (#[trigger] uss[b]).len() > 1 ==> spec_fold_scen_costs(
            base,
            uss[b],
        ) <= token_budget
    &&& forall|b: int|
        0 <= b < uss.len() - 1 ==> spec_fold_scen_costs(base, #[trigger] uss[b])
            + spec_scenario_cost(uss[b + 1][0]) > token_budget
}

/// Appending a batch that meets the split rules keeps them.
proof fn lemma_costs_ok_snoc(
    base: usize,
    uss: Seq<Seq<UserScenarioView>>,
    cpre: Seq<UserScenarioView>,
    token_budget: usize,
)
    requires
        spec_split_costs_ok(base, uss, token_budget),
        cpre.len() > 0,
        cpre.len() > 1 ==> spec_fold_scen_costs(base, cpre) <= token_budget,
        uss.len() > 0 ==> spec_fold_scen_costs(base, uss[uss.len() - 1])
            + spec_scenario_cost(cpre[0]) > token_budget,
    ensures
        spec_split_costs_ok(base, uss.push(cpre), token_budget),
{
    let u2 = uss.push(cpre);
    assert forall|b: int|
        0 <= b < u2.len() - 1 implies spec_fold_scen_costs(base, #[trigger] u2[b])
        + spec_scenario_cost(u2[b + 1][0]) > token_budget by {
        if b < uss.len() - 1 {
            assert(u2[b] == uss[b]);
            assert(u2[b + 1] == uss[b + 1]);
        } else {
            assert(u2[b] == uss[b]);
            assert(u2[b + 1] == cpre);
        }
    }
}

/// Closes the running batch: materializes it and appends it. Earlier
/// batches are untouched; the new last batch carries exactly the given
/// scenarios, all the requirements, and the edge cases travelling with
/// those scenarios.
fn flush_current(
    spec: &Specification,
    batches: &mut Vec<Specification>,
    finished: Vec<UserScenario>,
)
    ensures
        final(batches).deep_view().len() == old(batches).deep_view().len() + 1,
        forall|k: int|
            0 <= k < old(batches).deep_view().len() ==> final(batches).deep_view()[k] == old(
                batches,
            ).deep_view()[k],
        final(batches).deep_view()[old(batches).deep_view().len() as int].user_scenarios
            == finished.deep_view(),
        final(batches).deep_view()[old(batches).deep_view().len() as int].functional_requirements
            == spec.deep_view().functional_requirements,
        final(batches).deep_view()[old(batches).deep_view().len() as int].edge_cases
            == spec_related_edges(spec.deep_view().edge_cases, finished.deep_view()),
        crate::merge::spec_all_us(final(batches).deep_view()) == crate::merge::spec_all_us(
            old(batches).deep_view(),
        ) + finished.deep_view(),
{
    let ghost bpre = batches.deep_view();
    let ghost m = batches.deep_view().len() as int;
    let batch = materialize_batch(spec, finished);
    batches.push(batch);
    proof {
        assert forall|k: int| 0 <= k < m implies batches.deep_view()[k] == bpre[k] by {
            assert(batches@[k] == old(batches)@[k]);
        }
        lemma_all_us_snoc(bpre, batches.deep_view());
    }
}


/// Extending the batch list by one appends its scenarios to the
/// concatenation; stated over elementwise premises.
proof fn lemma_all_us_snoc(s1: Seq<SpecificationView>, s2: Seq<SpecificationView>)
    requires
        s2.len() == s1.len() + 1,
        forall|k: int| 0 <= k < s1.len() ==> s2[k] == s1[k],
    ensures
        crate::merge::spec_all_us(s2) == crate::merge::spec_all_us(s1) + s2[s1.len() as int].user_scenarios,
    decreases s1.len(),
{
    if s1.len() == 0 {
        assert(s2.drop_first() =~= Seq::<SpecificationView>::empty());
        assert(crate::merge::spec_all_us(s2) == s2[0].user_scenarios + crate::merge::spec_all_us(
            s2.drop_first(),
        ));
        assert(crate::merge::spec_all_us(s2) =~= crate::merge::spec_all_us(s1)
            + s2[0].user_scenarios);
    } else {
        assert forall|k: int| 0 <= k < s1.drop_first().len() implies s2.drop_first()[k]
            == s1.drop_first()[k] by {
            assert(s2[k + 1] == s1[k + 1]);
        }
        lemma_all_us_snoc(s1.drop_first(), s2.drop_first());
        assert(s2.drop_first()[s1.drop_first().len() as int] == s2[s1.len() as int]);
        assert(s2[0] == s1[0]);
        assert(crate::merge::spec_all_us(s2) =~= crate::merge::spec_all_us(s1) + s2[
            s1.len() as int
        ].user_scenarios);
    }
}

/// Splits a specification into scenario batches under the token budget,
/// charging every batch with the full requirement set's base cost. A
/// specification that fits the budget, or has at most one scenario, stays
/// whole (with all its edge cases). Otherwise the split is greedy: no
/// scenario is lost, duplicated or reordered; every batch carries all the
/// requirements and exactly the edge cases that are untied or tied to one
/// of its scenarios; and the batches' scenario lists obey the split's cost
/// rules (nonempty, within budget when several, maximal).
#[verifier::rlimit(100)]
#[verifier::spinoff_prover]
pub fn build_spec_batches(spec: &Specification, token_budget: usize) -> (r: Vec<Specification>)
    ensures
        crate::merge::spec_all_us(r.deep_view()) == spec.user_scenarios.deep_view(),
        forall|b: int|
            0 <= b < r.deep_view().len() ==> (#[trigger] r.deep_view()[b]).functional_requirements
                == spec.deep_view().functional_requirements,
        (spec_fold_spec_chars(0, spec.deep_view()) / 4 <= token_budget
            || spec.user_scenarios@.len() <= 1) ==> (r.deep_view().len() == 1 && r.deep_view()[0]
            == spec.deep_view()),
        !(spec_fold_spec_chars(0, spec.deep_view()) / 4 <= token_budget
            || spec.user_scenarios@.len() <= 1) ==> (spec_split_costs_ok(
            spec_fr_base(spec.deep_view().functional_requirements),
            spec_us_lists(r.deep_view()),
            token_budget,
        ) && forall|b: int|
            0 <= b < r.deep_view().len() ==> (#[trigger] r.deep_view()[b]).edge_cases
                == spec_related_edges(
                spec.deep_view().edge_cases,
                r.deep_view()[b].user_scenarios,
            )),
{
    let ghost sv = spec.deep_view();
    let ghost usv = sv.user_scenarios;
    let total = estimate_spec_tokens(spec);
    if total <= token_budget || spec.user_scenarios.len() <= 1 {
        let single = spec.duplicate();
        let mut r: Vec<Specification> = Vec::new();
        r.push(single);
        proof {
            assert(r.deep_view() =~~= seq![sv]);
            assert(seq![sv].drop_first() =~= Seq::<SpecificationView>::empty());
            assert(crate::merge::spec_all_us(seq![sv]) == seq![sv][0].user_scenarios
                + crate::merge::spec_all_us(seq![sv].drop_first()));
            assert(crate::merge::spec_all_us(r.deep_view()) =~= usv);
            assert forall|b: int|
                0 <= b < r.deep_view().len() implies (#[trigger] r.deep_view()[
                b
            ]).functional_requirements == sv.functional_requirements by {}
        }
        return r;
    }
    let base = fr_base_cost(spec);
    let mut batches: Vec<Specification> = Vec::new();
    let mut current: Vec<UserScenario> = Vec::new();
    let mut current_tokens: usize = base;
    let n: usize = spec.user_scenarios.len();
    let mut i: usize = 0;
    let ghost mut donev: Seq<UserScenarioView> = Seq::<UserScenarioView>::empty();
    let ghost mut uss: Seq<Seq<UserScenarioView>> = Seq::<Seq<UserScenarioView>>::empty();
    while i < n
        invariant
            n == spec.user_scenarios@.len(),
            sv == spec.deep_view(),
            usv == sv.user_scenarios,
            base == spec_fr_base(sv.functional_requirements),
            i <= n,
            donev + current.deep_view() =~= usv.take(i as int),
            crate::merge::spec_all_us(batches.deep_view()) == donev,
            current_tokens == spec_fold_scen_costs(base, current.deep_view()),
            current@.len() > 1 ==> current_tokens <= token_budget,
            uss.len() == batches.deep_view().len(),
            forall|k: int|
                0 <= k < uss.len() ==> #[trigger] uss[k] == batches.deep_view()[
                    k
                ].user_scenarios,
            spec_split_costs_ok(base, uss, token_budget),
            forall|k: int|
                0 <= k < batches.deep_view().len() ==> (#[trigger] batches.deep_view()[
                    k
                ]).functional_requirements == sv.functional_requirements,
            forall|k: int|
                0 <= k < batches.deep_view().len() ==> (#[trigger] batches.deep_view()[
                    k
                ]).edge_cases == spec_related_edges(
                    sv.edge_cases,
                    batches.deep_view()[k].user_scenarios,
                ),
            batches.deep_view().len() > 0 ==> current@.len() > 0,
            batches.deep_view().len() > 0 && current@.len() > 0 ==> spec_fold_scen_costs(
                base,
                uss[uss.len() - 1],
            ) + spec_scenario_cost(current.deep_view()[0]) > token_budget,
        decreases n - i,
    {
        let tokens = scenario_cost(&spec.user_scenarios[i]);
        proof {
            assert(spec.user_scenarios[i as int].deep_view() == usv[i as int]);
        }
        let exceeds: bool = match current_tokens.checked_add(tokens) {
            Some(c) => c > token_budget,
            None => true,
        };
        if current.len() > 0 && exceeds {
            let ghost cpre = current.deep_view();
            let ghost bpre = batches.deep_view();
            let ghost m = bpre.len() as int;
            let finished = current;
            current = Vec::new();
            flush_current(spec, &mut batches, finished);
            proof {
                donev = donev + cpre;
                lemma_costs_ok_snoc(base, uss, cpre, token_budget);
                uss = uss.push(cpre);
                assert forall|k: int|
                    0 <= k < uss.len() implies #[trigger] uss[k] == batches.deep_view()[
                    k
                ].user_scenarios by {
                    if k < m {
                        assert(batches.deep_view()[k] == bpre[k]);
                    }
                }
                assert(crate::merge::spec_all_us(batches.deep_view()) =~= donev);
                assert(current.deep_view() =~= Seq::<UserScenarioView>::empty());
                assert(donev =~= usv.take(i as int));
                assert(donev + current.deep_view() =~= usv.take(i as int));
            }
            proof {
                assert(spec_fold_scen_costs(base, uss[uss.len() - 1]) == current_tokens);
            }
            current_tokens = base;
        }
        let elem = spec.user_scenarios[i].duplicate();
        let ghost edv = elem.deep_view();
        let ghost cpre2 = current.deep_view();
        proof {
            assert(edv == usv[i as int]);
        }
        current.push(elem);
        current_tokens = sat_add_usize(current_tokens, tokens);
        proof {
            assert(current.deep_view() =~= cpre2.push(edv));
            lemma_fold_scen_push(base, cpre2, edv);
            assert(current_tokens == spec_fold_scen_costs(base, current.deep_view()));
            if cpre2.len() > 0 {
                assert(current.deep_view()[0] == cpre2[0]);
            } else {
                assert(current.deep_view()[0] == edv);
            }
        }
        i = i + 1;
        proof {
            assert(donev + cpre2 =~= usv.take((i - 1) as int));
            assert(usv.take((i - 1) as int).push(edv) =~= usv.take(i as int));
            assert((donev + cpre2.push(edv)) =~= (donev + cpre2).push(edv));
            assert(donev + current.deep_view() =~= usv.take(i as int));
        }
    }
    if current.len() > 0 {
        let ghost cpre = current.deep_view();
        let ghost bpre = batches.deep_view();
        let ghost m = bpre.len() as int;
        flush_current(spec, &mut batches, current);
        proof {
            donev = donev + cpre;
            lemma_costs_ok_snoc(base, uss, cpre, token_budget);
            uss = uss.push(cpre);
            assert forall|k: int|
                0 <= k < uss.len() implies #[trigger] uss[k] == batches.deep_view()[
                k
            ].user_scenarios by {
                if k < m {
                    assert(batches.deep_view()[k] == bpre[k]);
                }
            }
            assert(crate::merge::spec_all_us(batches.deep_view()) =~= donev);
        }
    }
    proof {
        assert(usv.take(usv.len() as int) =~= usv);
        assert(crate::merge::spec_all_us(batches.deep_view()) =~= usv);
        assert(spec_us_lists(batches.deep_view()) =~= uss);
        assert(spec_split_costs_ok(base, spec_us_lists(batches.deep_view()), token_budget));
    }
    batches
}




// ---------------------------------------------------------------------------
// The user prompt
// ---------------------------------------------------------------------------

pub open spec fn spec_acceptance_lines(
    acs: Seq<crate::specification::AcceptanceScenarioView>,
) -> Seq<char>
    decreases acs.len(),
{
    if acs.len() == 0 {
        Seq::<char>::empty()
    } else {
        "- Soit "@ + acs[0].given + ", Quand "@ + acs[0].when + ", Alors "@ + acs[0].then_
            + "\n"@ + spec_acceptance_lines(acs.drop_first())
    }
}

pub open spec fn spec_us_sections(us: Seq<UserScenarioView>) -> Seq<char>
    decreases us.len(),
{
    if us.len() == 0 {
        Seq::<char>::empty()
    } else {
        "### "@ + us[0].id + " - "@ + us[0].title + " (Priorite: "@ + spec_priority_label(
            us[0].priority,
        ) + ")\n\n"@ + us[0].description + "\n\n"@ + "Scenarios d'acceptation:\n"@
            + spec_acceptance_lines(us[0].acceptance_scenarios) + "\n"@ + spec_us_sections(
            us.drop_first(),
        )
    }
}

pub open spec fn spec_fr_lines(
    frs: Seq<crate::specification::FunctionalRequirementView>,
) -> Seq<char>
    decreases frs.len(),
{
    if frs.len() == 0 {
        Seq::<char>::empty()
    } else {
        "- "@ + frs[0].id + ": "@ + frs[0].statement + " ("@ + spec_priority_label(
            frs[0].priority,
        ) + ")\n"@ + spec_fr_lines(frs.drop_first())
    }
}

pub open spec fn spec_edge_lines(ecs: Seq<EdgeCaseView>) -> Seq<char>
    decreases ecs.len(),
{
    if ecs.len() == 0 {
        Seq::<char>::empty()
    } else {
        "- "@ + ecs[0].description + "\n"@ + spec_edge_lines(ecs.drop_first())
    }
}

pub open spec fn spec_checklist_lines(
    frs: Seq<crate::specification::FunctionalRequirementView>,
) -> Seq<char>
    decreases frs.len(),
{
    if frs.len() == 0 {
        Seq::<char>::empty()
    } else {
        "- [ ] "@ + frs[0].id + "\n"@ + spec_checklist_lines(frs.drop_first())
    }
}

/// The complete user prompt of one generation batch.
pub open spec fn spec_test_prompt(sv: SpecificationView) -> Seq<char> {
    "Genere des scenarios de test Gherkin pour la specification suivante:\n\n"@
        + "## Scenarios utilisateur\n\n"@ + spec_us_sections(sv.user_scenarios)
        + "## Exigences fonctionnelles\n\n"@ + spec_fr_lines(sv.functional_requirements)
        + "\n"@ + (if sv.edge_cases.len() > 0 {
        "## Cas limites\n\n"@ + spec_edge_lines(sv.edge_cases) + "\n"@
    } else {
        Seq::<char>::empty()
    }) + (if sv.functional_requirements.len() > 0 {
        "## Checklist de couverture (OBLIGATOIRE)\n\n"@
            + "Chaque FR-ID ci-dessous DOIT apparaitre dans `verification_of` d'au moins un scenario:\n"@
            + spec_checklist_lines(sv.functional_requirements) + "\n"@
    } else {
        Seq::<char>::empty()
    })
}

fn append_str_chars(out: &mut Vec<char>, s: &str)
    ensures
        final(out)@ == old(out)@ + s@,
{
    let mut v = to_chars(s);
    out.append(&mut v);
}

/// Builds the user prompt of one generation batch.
#[verifier::rlimit(60)]
pub fn build_test_prompt(spec: &Specification) -> (r: String)
    ensures
        r@ == spec_test_prompt(spec.deep_view()),
{
    let ghost sv = spec.deep_view();
    let mut out = to_chars(
        "Genere des scenarios de test Gherkin pour la specification suivante:\n\n",
    );
    append_str_chars(&mut out, "## Scenarios utilisateur\n\n");
    let ghost usv = sv.user_scenarios;
    let ghost base0 = out@;
    let mut i: usize = 0;
    proof {
        assert(usv.skip(0) =~= usv);
    }
    while i < spec.user_scenarios.len()
        invariant
            i <= spec.user_scenarios@.len(),
            sv == spec.deep_view(),
            usv == sv.user_scenarios,
            base0 == "Genere des scenarios de test Gherkin pour la specification suivante:\n\n"@
                + "## Scenarios utilisateur\n\n"@,
            out@ + spec_us_sections(usv.skip(i as int)) =~= base0 + spec_us_sections(usv),
        decreases spec.user_scenarios@.len() - i,
    {
        let ghost rem = usv.skip(i as int);
        proof {
            assert(rem[0] == usv[i as int]);
            assert(rem.drop_first() =~= usv.skip(i + 1));
        }
        let us = &spec.user_scenarios[i];
        append_str_chars(&mut out, "### ");
        append_str_chars(&mut out, us.id.as_str());
        append_str_chars(&mut out, " - ");
        append_str_chars(&mut out, us.title.as_str());
        append_str_chars(&mut out, " (Priorite: ");
        append_str_chars(&mut out, us.priority.label());
        append_str_chars(&mut out, ")\n\n");
        append_str_chars(&mut out, us.description.as_str());
        append_str_chars(&mut out, "\n\n");
        append_str_chars(&mut out, "Scenarios d'acceptation:\n");
        let ghost acs = us.deep_view().acceptance_scenarios;
        let ghost abase = out@;
        let mut k: usize = 0;
        proof {
            assert(acs.skip(0) =~= acs);
        }
        while k < us.acceptance_scenarios.len()
            invariant
                k <= us.acceptance_scenarios@.len(),
                acs == us.deep_view().acceptance_scenarios,
                out@ + spec_acceptance_lines(acs.skip(k as int)) =~= abase
                    + spec_acceptance_lines(acs),
            decreases us.acceptance_scenarios@.len() - k,
        {
            let ghost arem = acs.skip(k as int);
            proof {
                assert(arem[0] == acs[k as int]);
                assert(arem.drop_first() =~= acs.skip(k + 1));
            }
            let a = &us.acceptance_scenarios[k];
            append_str_chars(&mut out, "- Soit ");
            append_str_chars(&mut out, a.given.as_str());
            append_str_chars(&mut out, ", Quand ");
            append_str_chars(&mut out, a.when.as_str());
            append_str_chars(&mut out, ", Alors ");
            append_str_chars(&mut out, a.then_.as_str());
            append_str_chars(&mut out, "\n");
            k = k + 1;
            proof {
                assert(out@ + spec_acceptance_lines(acs.skip(k as int)) =~= abase
                    + spec_acceptance_lines(acs));
            }
        }
        proof {
            assert(acs.skip(acs.len() as int) =~= Seq::<
                crate::specification::AcceptanceScenarioView,
            >::empty());
        }
        append_str_chars(&mut out, "\n");
        i = i + 1;
        proof {
            assert(out@ + spec_us_sections(usv.skip(i as int)) =~= base0 + spec_us_sections(usv));
        }
    }
    proof {
        assert(usv.skip(usv.len() as int) =~= Seq::<UserScenarioView>::empty());
    }

    append_str_chars(&mut out, "## Exigences fonctionnelles\n\n");
    let ghost fv = sv.functional_requirements;
    let ghost fbase = out@;
    let mut i: usize = 0;
    proof {
        assert(fv.skip(0) =~= fv);
    }
    while i < spec.functional_requirements.len()
        invariant
            i <= spec.functional_requirements@.len(),
            sv == spec.deep_view(),
            fv == sv.functional_requirements,
            out@ + spec_fr_lines(fv.skip(i as int)) =~= fbase + spec_fr_lines(fv),
        decreases spec.functional_requirements@.len() - i,
    {
        let ghost rem = fv.skip(i as int);
        proof {
            assert(rem[0] == fv[i as int]);
            assert(rem.drop_first() =~= fv.skip(i + 1));
        }
        let fr = &spec.functional_requirements[i];
        append_str_chars(&mut out, "- ");
        append_str_chars(&mut out, fr.id.as_str());
        append_str_chars(&mut out, ": ");
        append_str_chars(&mut out, fr.statement.as_str());
        append_str_chars(&mut out, " (");
        append_str_chars(&mut out, fr.priority.label());
        append_str_chars(&mut out, ")\n");
        i = i + 1;
        proof {
            assert(out@ + spec_fr_lines(fv.skip(i as int)) =~= fbase + spec_fr_lines(fv));
        }
    }
    proof {
        assert(fv.skip(fv.len() as int) =~= Seq::<
            crate::specification::FunctionalRequirementView,
        >::empty());
    }
    append_str_chars(&mut out, "\n");

    if spec.edge_cases.len() > 0 {
        append_str_chars(&mut out, "## Cas limites\n\n");
        let ghost ev = sv.edge_cases;
        let ghost ebase = out@;
        let mut i: usize = 0;
        proof {
            assert(ev.skip(0) =~= ev);
        }
        while i < spec.edge_cases.len()
            invariant
                i <= spec.edge_cases@.len(),
                sv == spec.deep_view(),
                ev == sv.edge_cases,
                out@ + spec_edge_lines(ev.skip(i as int)) =~= ebase + spec_edge_lines(ev),
            decreases spec.edge_cases@.len() - i,
        {
            let ghost rem = ev.skip(i as int);
            proof {
                assert(rem[0] == ev[i as int]);
                assert(rem.drop_first() =~= ev.skip(i + 1));
            }
            append_str_chars(&mut out, "- ");
            append_str_chars(&mut out, spec.edge_cases[i].description.as_str());
            append_str_chars(&mut out, "\n");
            i = i + 1;
            proof {
                assert(out@ + spec_edge_lines(ev.skip(i as int)) =~= ebase + spec_edge_lines(ev));
            }
        }
        proof {
            assert(ev.skip(ev.len() as int) =~= Seq::<EdgeCaseView>::empty());
        }
        append_str_chars(&mut out, "\n");
    }

    if spec.functional_requirements.len() > 0 {
        append_str_chars(&mut out, "## Checklist de couverture (OBLIGATOIRE)\n\n");
        append_str_chars(
            &mut out,
            "Chaque FR-ID ci-dessous DOIT apparaitre dans `verification_of` d'au moins un scenario:\n",
        );
        let ghost cbase = out@;
        let mut i: usize = 0;
        proof {
            assert(fv.skip(0) =~= fv);
        }
        while i < spec.functional_requirements.len()
            invariant
                i <= spec.functional_requirements@.len(),
                sv == spec.deep_view(),
                fv == sv.functional_requirements,
                out@ + spec_checklist_lines(fv.skip(i as int)) =~= cbase + spec_checklist_lines(
                    fv,
                ),
            decreases spec.functional_requirements@.len() - i,
        {
            let ghost rem = fv.skip(i as int);
            proof {
                assert(rem[0] == fv[i as int]);
                assert(rem.drop_first() =~= fv.skip(i + 1));
            }
            append_str_chars(&mut out, "- [ ] ");
            append_str_chars(&mut out, spec.functional_requirements[i].id.as_str());
            append_str_chars(&mut out, "\n");
            i = i + 1;
            proof {
                assert(out@ + spec_checklist_lines(fv.skip(i as int)) =~= cbase
                    + spec_checklist_lines(fv));
            }
        }
        proof {
            assert(fv.skip(fv.len() as int) =~= Seq::<
                crate::specification::FunctionalRequirementView,
            >::empty());
        }
        append_str_chars(&mut out, "\n");
    }
    let r = chars_to_string(&out);
    proof {
        assert(r@ =~= spec_test_prompt(sv));
    }
    r
}


// ---------------------------------------------------------------------------
// Building the suite from a decoded payload
// ---------------------------------------------------------------------------

/// Extracts the structured payload of a generated response.
pub fn clean_json(response: &str) -> (r: String)
    ensures
        r@ == crate::sanitize::spec_clean_json_response(response@),
{
    crate::sanitize::clean_json_response(response)
}

pub open spec fn spec_built_step(s: StepInputView) -> crate::test_case::StepView {
    crate::test_case::StepView {
        keyword: spec_parse_keyword(s.keyword),
        text: s.text,
        doc_string: s.doc_string,
        data_table: s.data_table,
    }
}

/// Maps one decoded step, parsing its keyword.
pub fn parse_step(ls: &StepInput) -> (r: Step)
    ensures
        r.deep_view() == spec_built_step(ls.deep_view()),
{
    Step {
        keyword: parse_keyword(ls.keyword.as_str()),
        text: ls.text.clone(),
        doc_string: dup_opt(&ls.doc_string),
        data_table: dup_table_opt(&ls.data_table),
    }
}

fn dup_table_opt(v: &Option<Vec<Vec<String>>>) -> (r: Option<Vec<Vec<String>>>)
    ensures
        r.deep_view() == v.deep_view(),
{
    match v {
        Some(rows) => {
            let mut out: Vec<Vec<String>> = Vec::new();
            let mut i: usize = 0;
            while i < rows.len()
                invariant
                    i <= rows@.len(),
                    out@.len() == i,
                    forall|k: int| 0 <= k < i ==> out.deep_view()[k] == rows.deep_view()[k],
                decreases rows@.len() - i,
            {
                let elem = dup_vec(&rows[i]);
                let ghost evw = elem.deep_view();
                let ghost pre = out.deep_view();
                proof {
                    assert(evw == rows.deep_view()[i as int]);
                }
                out.push(elem);
                i = i + 1;
                proof {
                    assert forall|k: int|
                        0 <= k < i implies out.deep_view()[k] == rows.deep_view()[k] by {
                        if k < i - 1 {
                            assert(out.deep_view()[k] == pre[k]);
                        } else {
                            assert(out.deep_view()[k] == evw);
                        }
                    }
                }
            }
            proof {
                assert(out.deep_view() =~= rows.deep_view());
            }
            Some(out)
        },
        None => None,
    }
}

pub open spec fn spec_built_gscenario(
    s: GherkinScenarioInputView,
) -> crate::test_case::ScenarioView {
    crate::test_case::ScenarioView {
        name: s.name,
        tags: s.tags,
        scenario_type: spec_parse_scenario_type(s.scenario_type),
        steps: s.steps.map_values(|x: StepInputView| spec_built_step(x)),
        examples: match s.examples {
            Option::Some(e) => Option::Some(
                crate::test_case::ExamplesView { headers: e.headers, rows: e.rows },
            ),
            Option::None => Option::None,
        },
        test_data_suggestions: s.test_data_suggestions,
        verification_of: s.verification_of,
        coverage_technique: match s.coverage_technique {
            Option::Some(c) => Option::Some(spec_parse_coverage_technique(c)),
            Option::None => Option::None,
        },
    }
}

fn build_steps(ls: &Vec<StepInput>) -> (r: Vec<Step>)
    ensures
        r.deep_view() == ls.deep_view().map_values(|x: StepInputView| spec_built_step(x)),
{
    let mut out: Vec<Step> = Vec::new();
    let mut i: usize = 0;
    while i < ls.len()
        invariant
            i <= ls@.len(),
            out@.len() == i,
            forall|k: int|
                0 <= k < i ==> out.deep_view()[k] == spec_built_step(ls.deep_view()[k]),
        decreases ls@.len() - i,
    {
        let elem = parse_step(&ls[i]);
        let ghost evw = elem.deep_view();
        let ghost pre = out.deep_view();
        proof {
            assert(evw == spec_built_step(ls.deep_view()[i as int]));
        }
        out.push(elem);
        i = i + 1;
        proof {
            assert forall|k: int|
                0 <= k < i implies out.deep_view()[k] == spec_built_step(
                ls.deep_view()[k],
            ) by {
                if k < i - 1 {
                    assert(out.deep_view()[k] == pre[k]);
                } else {
                    assert(out.deep_view()[k] == evw);
                }
            }
        }
    }
    proof {
        assert(out.deep_view() =~= ls.deep_view().map_values(
            |x: StepInputView| spec_built_step(x),
        ));
    }
    out
}

fn build_scenario(ls: &crate::llm_output::GherkinScenarioInput) -> (r: Scenario)
    ensures
        r.deep_view() == spec_built_gscenario(ls.deep_view()),
{
    let examples: Option<Examples> = match &ls.examples {
        Some(e) => Some(Examples { headers: dup_vec(&e.headers), rows: dup_table(&e.rows) }),
        None => None,
    };
    let ct = match &ls.coverage_technique {
        Some(c) => Some(parse_coverage_technique(c.as_str())),
        None => None,
    };
    Scenario {
        name: ls.name.clone(),
        tags: dup_vec(&ls.tags),
        scenario_type: parse_scenario_type(ls.scenario_type.as_str()),
        steps: build_steps(&ls.steps),
        examples,
        test_data_suggestions: dup_vec(&ls.test_data_suggestions),
        verification_of: dup_vec(&ls.verification_of),
        coverage_technique: ct,
    }
}

fn dup_table(rows: &Vec<Vec<String>>) -> (r: Vec<Vec<String>>)
    ensures
        r.deep_view() == rows.deep_view(),
{
    let mut out: Vec<Vec<String>> = Vec::new();
    let mut i: usize = 0;
    while i < rows.len()
        invariant
            i <= rows@.len(),
            out@.len() == i,
            forall|k: int| 0 <= k < i ==> out.deep_view()[k] == rows.deep_view()[k],
        decreases rows@.len() - i,
    {
        let elem = dup_vec(&rows[i]);
        let ghost evw = elem.deep_view();
        let ghost pre = out.deep_view();
        proof {
            assert(evw == rows.deep_view()[i as int]);
        }
        out.push(elem);
        i = i + 1;
        proof {
            assert forall|k: int| 0 <= k < i implies out.deep_view()[k] == rows.deep_view()[k] by {
                if k < i - 1 {
                    assert(out.deep_view()[k] == pre[k]);
                } else {
                    assert(out.deep_view()[k] == evw);
                }
            }
        }
    }
    proof {
        assert(out.deep_view() =~= rows.deep_view());
    }
    out
}

/// A built feature matches its decoded input: every text field carried
/// over, the keywords and classifications parsed, the test level defaulting
/// to acceptance.
pub open spec fn feature_matches(
    f: crate::test_case::FeatureView,
    lf: FeatureInputView,
) -> bool {
    &&& f.name == lf.name
    &&& f.description == lf.description
    &&& f.tags == lf.tags
    &&& f.source_scenario_ids == lf.source_scenario_ids
    &&& f.covered_requirements == lf.covered_requirements
    &&& f.test_level == (match lf.test_level {
        Option::Some(t) => spec_parse_test_level(t),
        Option::None => TestLevel::Acceptance,
    })
    &&& f.background == (match lf.background {
        Option::Some(steps) => Option::Some(
            crate::test_case::BackgroundView {
                steps: steps.map_values(|x: StepInputView| spec_built_step(x)),
            },
        ),
        Option::None => Option::None,
    })
    &&& f.scenarios == lf.scenarios.map_values(
        |x: GherkinScenarioInputView| spec_built_gscenario(x),
    )
    &&& f.id != 0
}

/// Builds the test suite of one decoded payload: one feature per decoded
/// feature (with a fresh identifier), coverage metrics left zeroed for the
/// caller to compute.
#[verifier::rlimit(60)]
pub fn build_test_suite(output: &TestOutput, spec: &Specification) -> (r: TestSuite)
    ensures
        r.features@.len() == output.features@.len(),
        forall|i: int|
            0 <= i < output.features@.len() ==> feature_matches(
                #[trigger] r.features.deep_view()[i],
                output.features.deep_view()[i],
            ),
        r.source_spec_id == spec.id,
        r.total_scenarios == 0,
        r.coverage.requirements_covered@.len() == 0,
{
    let ghost ov = output.deep_view();
    let mut features: Vec<Feature> = Vec::new();
    let mut i: usize = 0;
    while i < output.features.len()
        invariant
            i <= output.features@.len(),
            ov == output.deep_view(),
            features@.len() == i,
            forall|k: int|
                0 <= k < i ==> feature_matches(
                    #[trigger] features.deep_view()[k],
                    ov.features[k],
                ),
        decreases output.features@.len() - i,
    {
        let lf = &output.features[i];
        proof {
            assert(lf.deep_view() == ov.features[i as int]);
        }
        let mut feature = Feature::new(lf.name.clone(), lf.description.clone());
        feature.tags = dup_vec(&lf.tags);
        feature.source_scenario_ids = dup_vec(&lf.source_scenario_ids);
        feature.covered_requirements = dup_vec(&lf.covered_requirements);
        feature.test_level = match &lf.test_level {
            Some(t) => parse_test_level(t.as_str()),
            None => TestLevel::Acceptance,
        };
        feature.background = match &lf.background {
            Some(steps) => Some(Background { steps: build_steps(steps) }),
            None => None,
        };
        let mut scenarios: Vec<Scenario> = Vec::new();
        let mut k: usize = 0;
        while k < lf.scenarios.len()
            invariant
                k <= lf.scenarios@.len(),
                scenarios@.len() == k,
                forall|m: int|
                    0 <= m < k ==> scenarios.deep_view()[m] == spec_built_gscenario(
                        lf.deep_view().scenarios[m],
                    ),
            decreases lf.scenarios@.len() - k,
        {
            let elem = build_scenario(&lf.scenarios[k]);
            let ghost evw = elem.deep_view();
            let ghost pre = scenarios.deep_view();
            proof {
                assert(evw == spec_built_gscenario(lf.deep_view().scenarios[k as int]));
            }
            scenarios.push(elem);
            k = k + 1;
            proof {
                assert forall|m: int|
                    0 <= m < k implies scenarios.deep_view()[m] == spec_built_gscenario(
                    lf.deep_view().scenarios[m],
                ) by {
                    if m < k - 1 {
                        assert(scenarios.deep_view()[m] == pre[m]);
                    } else {
                        assert(scenarios.deep_view()[m] == evw);
                    }
                }
            }
        }
        proof {
            assert(scenarios.deep_view() =~= lf.deep_view().scenarios.map_values(
                |x: GherkinScenarioInputView| spec_built_gscenario(x),
            ));
        }
        feature.scenarios = scenarios;
        let ghost fvw = feature.deep_view();
        proof {
            assert(feature_matches(fvw, ov.features[i as int]));
        }
        let ghost pre = features.deep_view();
        features.push(feature);
        i = i + 1;
        proof {
            assert forall|k2: int|
                0 <= k2 < i implies feature_matches(
                #[trigger] features.deep_view()[k2],
                ov.features[k2],
            ) by {
                if k2 < i - 1 {
                    assert(features.deep_view()[k2] == pre[k2]);
                } else {
                    assert(features.deep_view()[k2] == fvw);
                }
            }
        }
    }
    TestSuite {
        features,
        source_spec_id: spec.id,
        total_scenarios: 0,
        coverage: crate::test_case::TestCoverage {
            requirements_covered: Vec::new(),
            requirements_total: 0,
            coverage_percentage: 0,
            scenarios_by_type: crate::test_case::ScenarioCounts {
                happy_path: 0,
                edge_case: 0,
                error_scenario: 0,
                boundary: 0,
            },
        },
    }
}

// ---------------------------------------------------------------------------
// The service
// ---------------------------------------------------------------------------

struct WithoutValidation<'a, D: OutputDecoder<TestOutput>> {
    inner: &'a D,
}

impl<'a, D: OutputDecoder<TestOutput>> OutputDecoder<TestOutput> for WithoutValidation<'a, D> {
    fn decode(&self, text: &str) -> Result<TestOutput, String> {
        self.inner.decode(text)
    }

    fn validate(&self, value: &TestOutput, attempt: usize, max_retries: usize) -> Option<
        String,
    > {
        None
    }
}

/// Generates the tests of one batch: renders the system prompt, builds the
/// user prompt, runs the retried exchange (without semantic validation),
/// builds the suite and computes its coverage. A cut-short response is
/// reported as `OutputTruncated`, exhaustion as `GherkinFailed`.
pub fn generate_single<P: LlmPort, D: OutputDecoder<TestOutput>, T: PromptTemplates>(
    port: &mut P,
    decoder: &D,
    templates: &T,
    spec: &Specification,
    language: Language,
    max_retries: usize,
) -> (r: Result<TestSuite, GenerationError>)
    requires
        max_retries < usize::MAX,
    ensures
        (r matches Ok(suite) ==> suite.source_spec_id == spec.id && spec_coverage_fresh(
            suite.deep_view(),
            spec.functional_requirements.len(),
        )),
        (r matches Err(GenerationError::OutputTruncated { details }) ==> exists|t: usize, c: nat|
            details@ == crate::executor::spec_truncated_details(t, c)),
{
    let system_prompt = match templates.generate_system(language) {
        Ok(s) => s,
        Err(e) => {
            let mut msg = String::from_str("Erreur template: ");
            msg.append(e.as_str());
            return Err(GenerationError::GherkinFailed { details: msg });
        },
    };
    let user_prompt = build_test_prompt(spec);
    let plain = WithoutValidation { inner: decoder };
    match call_with_retry(
        port,
        &plain,
        system_prompt.as_str(),
        user_prompt.as_str(),
        max_retries,
    ) {
        Ok(output) => {
            let mut suite = build_test_suite(&output, spec);
            suite.compute_coverage(spec.functional_requirements.len());
            Ok(suite)
        },
        Err(LlmRetryError::Truncated { details }) => Err(
            GenerationError::OutputTruncated { details },
        ),
        Err(LlmRetryError::Failed { details }) => Err(
            GenerationError::GherkinFailed { details },
        ),
    }
}

/// Termination measure of the generation queue, over scenario counts.
pub open spec fn spec_gen_qmeasure(q: Seq<SpecificationView>) -> nat
    decreases q.len(),
{
    if q.len() == 0 {
        0
    } else {
        (if q[0].user_scenarios.len() == 0 {
            1nat
        } else {
            (2 * q[0].user_scenarios.len() - 1) as nat
        }) + spec_gen_qmeasure(q.drop_first())
    }
}

/// The requirements whose identifier is not among the covered ones, in
/// order.
pub open spec fn spec_uncovered_frs(
    frs: Seq<crate::specification::FunctionalRequirementView>,
    covered: Seq<Seq<char>>,
) -> Seq<crate::specification::FunctionalRequirementView>
    decreases frs.len(),
{
    if frs.len() == 0 {
        Seq::<crate::specification::FunctionalRequirementView>::empty()
    } else {
        (if seq_contains_str(covered, frs[0].id) {
            Seq::<crate::specification::FunctionalRequirementView>::empty()
        } else {
            seq![frs[0]]
        }) + spec_uncovered_frs(frs.drop_first(), covered)
    }
}

/// Collects the requirements of the specification that the coverage list
/// does not name: the gap-fill passes' work list.
pub fn collect_gaps(spec: &Specification, covered: &Vec<String>) -> (r: Vec<
    FunctionalRequirement,
>)
    ensures
        r.deep_view() == spec_uncovered_frs(
            spec.functional_requirements.deep_view(),
            covered.deep_view(),
        ),
{
    let ghost fv = spec.functional_requirements.deep_view();
    let ghost cv = covered.deep_view();
    let mut out: Vec<FunctionalRequirement> = Vec::new();
    let mut i: usize = 0;
    proof {
        assert(fv.skip(0) =~= fv);
    }
    while i < spec.functional_requirements.len()
        invariant
            i <= spec.functional_requirements@.len(),
            fv == spec.functional_requirements.deep_view(),
            cv == covered.deep_view(),
            out.deep_view() + spec_uncovered_frs(fv.skip(i as int), cv) =~~= spec_uncovered_frs(
                fv,
                cv,
            ),
        decreases spec.functional_requirements@.len() - i,
    {
        let ghost rem = fv.skip(i as int);
        let ghost opre = out.deep_view();
        proof {
            assert(rem[0] == fv[i as int]);
            assert(rem.drop_first() =~= fv.skip(i + 1));
        }
        let fr = &spec.functional_requirements[i];
        proof {
            assert(fr.deep_view() == fv[i as int]);
        }
        if !contains_string(covered, fr.id.as_str()) {
            out.push(fr.duplicate());
            proof {
                assert(out.deep_view() =~~= opre.push(fv[i as int]));
                assert(opre.push(fv[i as int]) =~= opre + seq![fv[i as int]]);
            }
        }
        i = i + 1;
        proof {
            assert(out.deep_view() + spec_uncovered_frs(fv.skip(i as int), cv)
                =~~= spec_uncovered_frs(fv, cv));
        }
    }
    proof {
        assert(fv.skip(fv.len() as int) =~= Seq::<
            crate::specification::FunctionalRequirementView,
        >::empty());
        assert(out.deep_view() + spec_uncovered_frs(fv.skip(fv.len() as int), cv)
            =~~= out.deep_view());
    }
    out
}

/// Copies the requirements from `start` (inclusive) to `end` (exclusive):
/// one gap-fill chunk.
pub fn duplicate_range(
    frs: &Vec<FunctionalRequirement>,
    start: usize,
    end: usize,
) -> (r: Vec<FunctionalRequirement>)
    requires
        start <= end <= frs@.len(),
    ensures
        r.deep_view() == frs.deep_view().subrange(start as int, end as int),
{
    let mut out: Vec<FunctionalRequirement> = Vec::new();
    let mut k: usize = start;
    while k < end
        invariant
            start <= k <= end <= frs@.len(),
            out.deep_view() =~~= frs.deep_view().subrange(start as int, k as int),
        decreases end - k,
    {
        let ghost opre = out.deep_view();
        out.push(frs[k].duplicate());
        k = k + 1;
        proof {
            assert(out.deep_view() =~~= opre.push(frs.deep_view()[k - 1]));
            assert(frs.deep_view().subrange(start as int, k as int) =~= frs.deep_view().subrange(
                start as int,
                (k - 1) as int,
            ).push(frs.deep_view()[k - 1]));
        }
    }
    out
}

/// Test-generation service: batches the scenarios under a token budget,
/// splits a batch whose response was cut short, merges the suites and runs
/// up to two gap-fill passes over the uncovered requirements, skipping a
/// failed chunk rather than aborting the others.
pub struct GenerateTestsService {
    pub language: Language,
    /// Maximum number of retries per generation exchange.
    pub max_retries: usize,
    /// Token budget for one batch's user prompt.
    pub token_budget: usize,
}

impl GenerateTestsService {
    pub fn new(language: Language, max_retries: usize) -> (r: Self)
        ensures
            r.language == language,
            r.max_retries == max_retries,
            r.token_budget == 6000,
    {
        GenerateTestsService { language, max_retries, token_budget: 6000 }
    }

    pub fn with_token_budget(self, token_budget: usize) -> (r: Self)
        ensures
            r.language == self.language,
            r.max_retries == self.max_retries,
            r.token_budget == token_budget,
    {
        GenerateTestsService { language: self.language, max_retries: self.max_retries, token_budget }
    }

    /// Generates the Gherkin suite of a specification: planned batches are
    /// driven through the exchange with midpoint splitting on cut-short
    /// responses; the merged result gets up to two gap-fill passes over the
    /// requirements still uncovered, in chunks of at most twenty, a failing
    /// chunk being skipped. On success the suite names its source
    /// specification and its coverage is freshly computed from its features
    /// against the specification's requirement count.
    pub fn generate<P: LlmPort, D: OutputDecoder<TestOutput>, T: PromptTemplates>(
        &self,
        port: &mut P,
        decoder: &D,
        templates: &T,
        spec: &Specification,
    ) -> (r: Result<TestSuite, GenerationError>)
        requires
            self.max_retries < usize::MAX,
        ensures
            (r matches Ok(suite) ==> suite.source_spec_id == spec.id && spec_coverage_fresh(
                suite.deep_view(),
                spec.functional_requirements.len(),
            )),
            (r matches Err(GenerationError::OutputTruncated { details }) ==> exists|
                t: usize,
                c: nat,
            | details@ == crate::executor::spec_truncated_details(t, c)),
    {
        let batches = build_spec_batches(spec, self.token_budget);
        let mut queue: VecDeque<Specification> = VecDeque::new();
        let mut batches = batches;
        while batches.len() > 0
            decreases batches@.len(),
        {
            let b = batches.remove(0);
            queue.push_back(b);
        }
        let mut suites: Vec<TestSuite> = Vec::new();
        loop
            invariant
                self.max_retries < usize::MAX,
            decreases spec_gen_qmeasure(queue.deep_view()),
        {
            let ghost qpre = queue.deep_view();
            match queue.pop_front() {
                None => {
                    break;
                },
                Some(batch) => {
                    proof {
                        assert(batch.deep_view() == qpre[0]);
                        assert(queue.deep_view() =~~= qpre.drop_first());
                    }
                    match generate_single(
                        port,
                        decoder,
                        templates,
                        &batch,
                        self.language,
                        self.max_retries,
                    ) {
                        Ok(suite) => {
                            suites.push(suite);
                            proof {
                                assert(spec_gen_qmeasure(qpre) == (if qpre[0].user_scenarios.len()
                                    == 0 {
                                    1nat
                                } else {
                                    (2 * qpre[0].user_scenarios.len() - 1) as nat
                                }) + spec_gen_qmeasure(qpre.drop_first()));
                            }
                        },
                        Err(GenerationError::OutputTruncated { details }) => {
                            if batch.user_scenarios.len() > 1 {
                                let mid: usize = batch.user_scenarios.len() / 2;
                                let ghost bv = batch.deep_view();
                                let mut scens = batch.user_scenarios;
                                let right_scens = scens.split_off(mid);
                                let left = materialize_batch(spec, scens);
                                let right = materialize_batch(spec, right_scens);
                                let ghost qmid = queue.deep_view();
                                queue.push_front(right);
                                let ghost qmid2 = queue.deep_view();
                                queue.push_front(left);
                                proof {
                                    assert(qmid2 =~~= seq![right.deep_view()] + qmid);
                                    assert(queue.deep_view() =~~= seq![left.deep_view()]
                                        + qmid2);
                                    assert(queue.deep_view()[0] == left.deep_view());
                                    assert(queue.deep_view().drop_first() =~~= qmid2);
                                    assert(qmid2[0] == right.deep_view());
                                    assert(qmid2.drop_first() =~~= qmid);
                                    assert(left.deep_view().user_scenarios.len() == mid);
                                    assert(right.deep_view().user_scenarios.len()
                                        == bv.user_scenarios.len() - mid);
                                    assert(spec_gen_qmeasure(qmid2) == (2 * (
                                    bv.user_scenarios.len() - mid) - 1) + spec_gen_qmeasure(
                                        qmid,
                                    ));
                                    assert(spec_gen_qmeasure(queue.deep_view()) == (2 * mid - 1)
                                        + spec_gen_qmeasure(qmid2));
                                    assert(qpre[0] == bv && qpre.drop_first() =~~= qmid);
                                    assert(spec_gen_qmeasure(qpre) == (2 * bv.user_scenarios.len()
                                        - 1) + spec_gen_qmeasure(qpre.drop_first()));
                                    assert(spec_gen_qmeasure(queue.deep_view())
                                        < spec_gen_qmeasure(qpre));
                                }
                            } else {
                                return Err(GenerationError::OutputTruncated { details });
                            }
                        },
                        Err(e) => {
                            return Err(e);
                        },
                    }
                },
            }
        }
        let mut merged = merge_test_suites(suites);
        merged.source_spec_id = spec.id;
        merged.compute_coverage(spec.functional_requirements.len());

        // Gap-fill passes: requirements with no coverage yet are re-sent in
        // reduced-scope chunks; a chunk failure is skipped.
        let mut pass: usize = 0;
        while pass < 2
            invariant
                self.max_retries < usize::MAX,
                merged.source_spec_id == spec.id,
                spec_coverage_fresh(merged.deep_view(), spec.functional_requirements.len()),
            decreases 2 - pass,
        {
            let gap_frs = collect_gaps(spec, &merged.coverage.requirements_covered);
            if gap_frs.len() == 0 {
                break;
            }
            let total_gaps: usize = gap_frs.len();
            let mut start: usize = 0;
            while start < total_gaps
                invariant
                    self.max_retries < usize::MAX,
                    total_gaps == gap_frs@.len(),
                    merged.source_spec_id == spec.id,
                decreases total_gaps - start,
            {
                let end: usize = if total_gaps - start > 20 {
                    start + 20
                } else {
                    total_gaps
                };
                let chunk = duplicate_range(&gap_frs, start, end);
                let mut gap_spec = spec.duplicate();
                gap_spec.functional_requirements = chunk;
                match generate_single(
                    port,
                    decoder,
                    templates,
                    &gap_spec,
                    self.language,
                    self.max_retries,
                ) {
                    Ok(mut gap_suite) => {
                        merged.features.append(&mut gap_suite.features);
                    },
                    Err(_) => {
                        // a failed chunk is skipped; the others still run
                    },
                }
                start = end;
            }
            merged.compute_coverage(spec.functional_requirements.len());
            pass = pass + 1;
        }
        Ok(merged)
    }
}

} // verus!
