//! Refinement service: drives batches of user stories through the retried
//! generation exchange, splits a batch in two when the response is cut
//! short, and merges the per-batch specifications into one. The queue keeps
//! the input order: the batches it completes, concatenated, are exactly the
//! input indices.

use vstd::prelude::*;
use vstd::string::*;
use std::collections::VecDeque;

use crate::dup::Duplicate;
use crate::errors::{LlmRetryError, RefinementError};
use crate::executor::{call_with_retry, LlmPort, OutputDecoder};
use crate::llm_output::{RefineOutput, ScenarioInputView, RequirementInputView,
    EntityInputView, EdgeInputView, CriterionInputView, ClarificationInputView};
use crate::merge::{merge_specifications, merged_title, spec_merged_title};
use crate::parse::{parse_category, parse_priority, parse_quality_characteristic,
    parse_risk_level, parse_verification_method, spec_parse_category, spec_parse_priority,
    spec_parse_quality_characteristic, spec_parse_risk_level, spec_parse_verification_method};
use crate::planner::{build_batches, spec_concat_batches, spec_index_seq};
use crate::specification::{AcceptanceScenario, AcceptanceScenarioView, Clarification,
    EdgeCase, FunctionalRequirement, FunctionalRequirementView, KeyEntity, Specification,
    SpecificationView, SpecStatus, SuccessCriterion, UserScenario, UserScenarioView,
    spec_has_unresolved};
use crate::story::{Language, UserStory, UserStoryView, UserStorySet};
use crate::textutil::{chars_to_string, push_u64_digits, spec_digits, spec_trim, to_chars, trim};
use crate::wellformed::validate_specification;

verus! {

/// Provider of the system prompts; a failure is reported as plain text.
/// Implementations live with the caller (a template engine) or in tests.
pub trait PromptTemplates {
    /// The system prompt of the refinement stage.
    fn refine_system(&self, language: Language) -> Result<String, String>;

    /// The system prompt of the test-generation stage.
    fn generate_system(&self, language: Language) -> Result<String, String>;
}

// ---------------------------------------------------------------------------
// The user prompt
// ---------------------------------------------------------------------------

/// The acceptance-criteria lines of one story.
pub open spec fn spec_criteria_lines(cs: Seq<Seq<char>>) -> Seq<char>
    decreases cs.len(),
{
    if cs.len() == 0 {
        Seq::<char>::empty()
    } else {
        "- "@ + cs[0] + "\n"@ + spec_criteria_lines(cs.drop_first())
    }
}

/// The prompt block of one story.
pub open spec fn spec_story_block(s: UserStoryView) -> Seq<char> {
    "### "@ + (match s.external_id {
        Option::Some(e) => e,
        Option::None => s.title,
    }) + " - "@ + s.title + "\n\nEn tant que "@ + s.actor + ", je veux "@ + s.action
        + " afin de "@ + s.benefit + ".\n"@ + (if s.acceptance_criteria.len() > 0 {
        "\nCriteres d'acceptation:\n"@ + spec_criteria_lines(s.acceptance_criteria)
    } else {
        Seq::<char>::empty()
    }) + "\n"@
}

pub open spec fn spec_story_blocks(stories: Seq<UserStoryView>) -> Seq<char>
    decreases stories.len(),
{
    if stories.len() == 0 {
        Seq::<char>::empty()
    } else {
        spec_story_block(stories[0]) + spec_story_blocks(stories.drop_first())
    }
}

/// The complete user prompt of one refinement batch.
pub open spec fn spec_refine_prompt(
    stories: Seq<UserStoryView>,
    constitution: Option<Seq<char>>,
) -> Seq<char> {
    "Raffine les User Stories suivantes en une specification complete:\n\n"@
        + spec_story_blocks(stories) + (match constitution {
        Option::Some(c) => "\n---\nPrincipes du projet (constitution):\n"@ + c + "\n"@,
        Option::None => Seq::<char>::empty(),
    })
}

fn push_story_block(out: &mut Vec<char>, s: &UserStory)
    ensures
        final(out)@ == old(out)@ + spec_story_block(s.deep_view()),
{
    let ghost pre = out@;
    let mut head = to_chars("### ");
    out.append(&mut head);
    match &s.external_id {
        Some(e) => {
            let mut v = to_chars(e.as_str());
            out.append(&mut v);
        },
        None => {
            let mut v = to_chars(s.title.as_str());
            out.append(&mut v);
        },
    }
    let mut sep = to_chars(" - ");
    out.append(&mut sep);
    let mut t = to_chars(s.title.as_str());
    out.append(&mut t);
    let mut p1 = to_chars("\n\nEn tant que ");
    out.append(&mut p1);
    let mut a = to_chars(s.actor.as_str());
    out.append(&mut a);
    let mut p2 = to_chars(", je veux ");
    out.append(&mut p2);
    let mut ac = to_chars(s.action.as_str());
    out.append(&mut ac);
    let mut p3 = to_chars(" afin de ");
    out.append(&mut p3);
    let mut b = to_chars(s.benefit.as_str());
    out.append(&mut b);
    let mut p4 = to_chars(".\n");
    out.append(&mut p4);
    if s.acceptance_criteria.len() > 0 {
        let mut hdr = to_chars("\nCriteres d'acceptation:\n");
        out.append(&mut hdr);
        let ghost cs = s.deep_view().acceptance_criteria;
        let ghost base = out@;
        let mut k: usize = 0;
        proof {
            assert(cs.skip(0) =~= cs);
        }
        while k < s.acceptance_criteria.len()
            invariant
                k <= s.acceptance_criteria@.len(),
                cs == s.deep_view().acceptance_criteria,
                out@ + spec_criteria_lines(cs.skip(k as int)) =~= base + spec_criteria_lines(cs),
            decreases s.acceptance_criteria@.len() - k,
        {
            let ghost rem = cs.skip(k as int);
            proof {
                assert(rem[0] == cs[k as int]);
                assert(rem.drop_first() =~= cs.skip(k + 1));
            }
            let mut dash = to_chars("- ");
            out.append(&mut dash);
            let mut c = to_chars(s.acceptance_criteria[k].as_str());
            out.append(&mut c);
            let mut nl = to_chars("\n");
            out.append(&mut nl);
            k = k + 1;
            proof {
                assert(out@ + spec_criteria_lines(cs.skip(k as int)) =~= base
                    + spec_criteria_lines(cs));
            }
        }
        proof {
            assert(cs.skip(cs.len() as int) =~= Seq::<Seq<char>>::empty());
        }
    }
    let mut nl = to_chars("\n");
    out.append(&mut nl);
    proof {
        assert(out@ =~= pre + spec_story_block(s.deep_view()));
    }
}

/// Builds the consolidated user prompt of one refinement batch.
pub fn build_refine_prompt(story_set: &UserStorySet, constitution: Option<&str>) -> (r: String)
    ensures
        r@ == spec_refine_prompt(
            story_set.stories.deep_view(),
            match constitution {
                Option::Some(c) => Option::Some(c@),
                Option::None => Option::None,
            },
        ),
{
    let ghost sv = story_set.stories.deep_view();
    let mut out = to_chars("Raffine les User Stories suivantes en une specification complete:\n\n");
    let mut i: usize = 0;
    proof {
        assert(sv.skip(0) =~= sv);
    }
    while i < story_set.stories.len()
        invariant
            i <= story_set.stories@.len(),
            sv == story_set.stories.deep_view(),
            out@ + spec_story_blocks(sv.skip(i as int))
                =~= "Raffine les User Stories suivantes en une specification complete:\n\n"@
                + spec_story_blocks(sv),
        decreases story_set.stories@.len() - i,
    {
        let ghost rem = sv.skip(i as int);
        proof {
            assert(rem[0] == sv[i as int]);
            assert(rem.drop_first() =~= sv.skip(i + 1));
        }
        push_story_block(&mut out, &story_set.stories[i]);
        i = i + 1;
        proof {
            assert(out@ + spec_story_blocks(sv.skip(i as int))
                =~= "Raffine les User Stories suivantes en une specification complete:\n\n"@
                + spec_story_blocks(sv));
        }
    }
    proof {
        assert(sv.skip(sv.len() as int) =~= Seq::<UserStoryView>::empty());
    }
    match constitution {
        Some(c) => {
            let mut hdr = to_chars("\n---\nPrincipes du projet (constitution):\n");
            out.append(&mut hdr);
            let mut cv = to_chars(c);
            out.append(&mut cv);
            let mut nl = to_chars("\n");
            out.append(&mut nl);
        },
        None => {},
    }
    let s = chars_to_string(&out);
    proof {
        assert(s@ =~= spec_refine_prompt(sv, match constitution {
            Option::Some(c) => Option::Some(c@),
            Option::None => Option::None::<Seq<char>>,
        }));
    }
    s
}

/// Extracts the structured payload of a generated response.
pub fn clean_json_response(response: &str) -> (r: String)
    ensures
        r@ == crate::sanitize::spec_clean_json_response(response@),
{
    crate::sanitize::clean_json_response(response)
}

// ---------------------------------------------------------------------------
// Payload validation
// ---------------------------------------------------------------------------

/// The rejection reason for a payload with scenarios but no requirements.
pub open spec fn spec_incomplete_reason(n_scenarios: nat) -> Seq<char> {
    "Sortie LLM incomplete: "@ + spec_digits(n_scenarios) + " scenarios mais 0 exigences"@
}

/// The refinement stage's acceptance rule: a payload with scenarios but no
/// requirements is rejected (and retried) while attempts remain; anything
/// else is accepted.
pub fn refine_accepts(output: &RefineOutput, attempt: usize, max_retries: usize) -> (r: Option<
    String,
>)
    ensures
        (output.user_scenarios@.len() > 0 && output.functional_requirements@.len() == 0 && attempt
            < max_retries) ==> (match r {
            Option::Some(reason) => reason@ == spec_incomplete_reason(
                output.user_scenarios@.len() as nat,
            ),
            Option::None => false,
        }),
        !(output.user_scenarios@.len() > 0 && output.functional_requirements@.len() == 0
            && attempt < max_retries) ==> r is None,
{
    if output.user_scenarios.len() > 0 && output.functional_requirements.len() == 0 && attempt
        < max_retries {
        let mut v = to_chars("Sortie LLM incomplete: ");
        push_u64_digits(output.user_scenarios.len() as u64, &mut v);
        let mut tail = to_chars(" scenarios mais 0 exigences");
        v.append(&mut tail);
        let s = chars_to_string(&v);
        proof {
            assert(s@ =~= spec_incomplete_reason(output.user_scenarios@.len() as nat));
        }
        Some(s)
    } else {
        None
    }
}

struct WithRefineRule<'a, D: OutputDecoder<RefineOutput>> {
    inner: &'a D,
}

impl<'a, D: OutputDecoder<RefineOutput>> OutputDecoder<RefineOutput> for WithRefineRule<'a, D> {
    fn decode(&self, text: &str) -> Result<RefineOutput, String> {
        self.inner.decode(text)
    }

    fn validate(&self, value: &RefineOutput, attempt: usize, max_retries: usize) -> Option<
        String,
    > {
        refine_accepts(value, attempt, max_retries)
    }
}


// ---------------------------------------------------------------------------
// Building the specification from a decoded payload
// ---------------------------------------------------------------------------

/// The identifier of the last story carrying this external identifier.
pub open spec fn spec_last_by_external(stories: Seq<UserStoryView>, id: Seq<char>) -> Option<u128>
    decreases stories.len(),
{
    if stories.len() == 0 {
        Option::None
    } else if stories.last().external_id == Option::Some(id) {
        Option::Some(stories.last().id)
    } else {
        spec_last_by_external(stories.drop_last(), id)
    }
}

/// The identifier of the last story carrying this title.
pub open spec fn spec_last_by_title(stories: Seq<UserStoryView>, title: Seq<char>) -> Option<u128>
    decreases stories.len(),
{
    if stories.len() == 0 {
        Option::None
    } else if stories.last().title == title {
        Option::Some(stories.last().id)
    } else {
        spec_last_by_title(stories.drop_last(), title)
    }
}

/// The source story of a decoded scenario: by external identifier, else by
/// title, else by position; nothing when even the position is out of range
/// (a fresh identifier is then drawn).
pub open spec fn spec_correlate(
    stories: Seq<UserStoryView>,
    scen_id: Seq<char>,
    scen_title: Seq<char>,
    idx: int,
) -> Option<u128> {
    match spec_last_by_external(stories, scen_id) {
        Option::Some(v) => Option::Some(v),
        Option::None => match spec_last_by_title(stories, scen_title) {
            Option::Some(v) => Option::Some(v),
            Option::None => if 0 <= idx < stories.len() {
                Option::Some(stories[idx].id)
            } else {
                Option::None
            },
        },
    }
}

fn last_by_external(stories: &Vec<UserStory>, id: &String) -> (r: Option<u128>)
    ensures
        r == spec_last_by_external(stories.deep_view(), id@),
{
    let ghost sv = stories.deep_view();
    let mut i: usize = stories.len();
    proof {
        assert(sv.take(sv.len() as int) =~= sv);
    }
    while i > 0
        invariant
            i <= stories@.len(),
            sv == stories.deep_view(),
            spec_last_by_external(sv, id@) == spec_last_by_external(sv.take(i as int), id@),
        decreases i,
    {
        let ghost prefix = sv.take(i as int);
        proof {
            assert(prefix.last() == sv[i - 1]);
            assert(prefix.drop_last() =~= sv.take(i - 1));
        }
        let matches_ext: bool = match &stories[i - 1].external_id {
            Some(e) => crate::textutil::string_eq_str(e, id.as_str()),
            None => false,
        };
        if matches_ext {
            proof {
                assert(sv[i - 1].external_id == Option::Some(id@));
            }
            return Some(stories[i - 1].id);
        }
        proof {
            assert(sv[i - 1].external_id != Option::Some(id@));
        }
        i = i - 1;
    }
    proof {
        assert(sv.take(0) =~= Seq::<UserStoryView>::empty());
    }
    None
}

fn last_by_title(stories: &Vec<UserStory>, title: &String) -> (r: Option<u128>)
    ensures
        r == spec_last_by_title(stories.deep_view(), title@),
{
    let ghost sv = stories.deep_view();
    let mut i: usize = stories.len();
    proof {
        assert(sv.take(sv.len() as int) =~= sv);
    }
    while i > 0
        invariant
            i <= stories@.len(),
            sv == stories.deep_view(),
            spec_last_by_title(sv, title@) == spec_last_by_title(sv.take(i as int), title@),
        decreases i,
    {
        let ghost prefix = sv.take(i as int);
        proof {
            assert(prefix.last() == sv[i - 1]);
            assert(prefix.drop_last() =~= sv.take(i - 1));
        }
        if crate::textutil::string_eq_str(&stories[i - 1].title, title.as_str()) {
            proof {
                assert(sv[i - 1].title == title@);
            }
            return Some(stories[i - 1].id);
        }
        i = i - 1;
    }
    proof {
        assert(sv.take(0) =~= Seq::<UserStoryView>::empty());
    }
    None
}

pub open spec fn spec_built_acceptances(
    acs: Seq<crate::llm_output::AcceptanceInputView>,
) -> Seq<AcceptanceScenarioView> {
    acs.map_values(
        |a: crate::llm_output::AcceptanceInputView|
            AcceptanceScenarioView { given: a.given, when: a.when, then_: a.then_ },
    )
}

/// The scenario built from a decoded one, given its source story.
pub open spec fn spec_built_scenario(ls: ScenarioInputView, sid: u128) -> UserScenarioView {
    UserScenarioView {
        id: ls.id,
        title: ls.title,
        priority: spec_parse_priority(ls.priority),
        description: ls.description,
        why_priority: ls.why_priority,
        independent_test: ls.independent_test,
        acceptance_scenarios: spec_built_acceptances(ls.acceptance_scenarios),
        source_story_id: sid,
    }
}

/// The requirement built from a decoded one.
pub open spec fn spec_built_fr(r: RequirementInputView) -> FunctionalRequirementView {
    FunctionalRequirementView {
        id: r.id,
        statement: r.statement,
        priority: spec_parse_priority(r.priority),
        category: spec_parse_category(r.category),
        testable: r.testable,
        rationale: r.rationale,
        source: r.source,
        verification_method: match r.verification_method {
            Option::Some(v) => spec_parse_verification_method(v),
            Option::None => crate::specification::VerificationMethod::Test,
        },
        risk_level: match r.risk_level {
            Option::Some(v) => Option::Some(spec_parse_risk_level(v)),
            Option::None => Option::None,
        },
        parent_requirement: r.parent_requirement,
        allocated_to: r.allocated_to,
        quality_characteristic: match r.quality_characteristic {
            Option::Some(v) => Option::Some(spec_parse_quality_characteristic(v)),
            Option::None => Option::None,
        },
    }
}

/// The kept requirements: entries with a blank identifier or statement are
/// dropped, the rest mapped.
pub open spec fn spec_kept_frs(rs: Seq<RequirementInputView>) -> Seq<FunctionalRequirementView>
    decreases rs.len(),
{
    if rs.len() == 0 {
        Seq::<FunctionalRequirementView>::empty()
    } else {
        (if spec_trim(rs[0].id).len() == 0 || spec_trim(rs[0].statement).len() == 0 {
            Seq::<FunctionalRequirementView>::empty()
        } else {
            seq![spec_built_fr(rs[0])]
        }) + spec_kept_frs(rs.drop_first())
    }
}

/// The kept key entities: entries with a blank name are dropped.
pub open spec fn spec_kept_entities(
    es: Seq<EntityInputView>,
) -> Seq<crate::specification::KeyEntityView>
    decreases es.len(),
{
    if es.len() == 0 {
        Seq::<crate::specification::KeyEntityView>::empty()
    } else {
        (if spec_trim(es[0].name).len() == 0 {
            Seq::<crate::specification::KeyEntityView>::empty()
        } else {
            seq![
                crate::specification::KeyEntityView {
                    name: es[0].name,
                    description: es[0].description,
                    attributes: es[0].attributes,
                    relationships: es[0].relationships,
                },
            ]
        }) + spec_kept_entities(es.drop_first())
    }
}

pub open spec fn spec_built_edges(
    es: Seq<EdgeInputView>,
) -> Seq<crate::specification::EdgeCaseView> {
    es.map_values(
        |e: EdgeInputView|
            crate::specification::EdgeCaseView {
                description: e.description,
                related_scenario: e.related_scenario,
                severity: spec_parse_priority(e.severity),
            },
    )
}

/// The kept success criteria: entries with a blank identifier are dropped.
pub open spec fn spec_kept_criteria(
    cs: Seq<CriterionInputView>,
) -> Seq<crate::specification::SuccessCriterionView>
    decreases cs.len(),
{
    if cs.len() == 0 {
        Seq::<crate::specification::SuccessCriterionView>::empty()
    } else {
        (if spec_trim(cs[0].id).len() == 0 {
            Seq::<crate::specification::SuccessCriterionView>::empty()
        } else {
            seq![
                crate::specification::SuccessCriterionView {
                    id: cs[0].id,
                    description: cs[0].description,
                    measurable_metric: cs[0].measurable_metric,
                },
            ]
        }) + spec_kept_criteria(cs.drop_first())
    }
}

pub open spec fn spec_built_clarifs(
    cs: Seq<ClarificationInputView>,
) -> Seq<crate::specification::ClarificationView> {
    cs.map_values(
        |c: ClarificationInputView|
            crate::specification::ClarificationView {
                question: c.question,
                context: c.context,
                suggested_options: c.suggested_options,
                impact: c.impact,
                resolved: false,
                answer: Option::None,
            },
    )
}

pub open spec fn spec_story_ids(stories: Seq<UserStoryView>) -> Seq<u128> {
    Seq::new(stories.len(), |i: int| stories[i].id)
}

fn is_blank(s: &String) -> (r: bool)
    ensures
        r == (spec_trim(s@).len() == 0),
{
    let t = trim(&to_chars(s.as_str()));
    t.len() == 0
}

/// Builds a specification from one decoded refinement payload: scenarios
/// correlated back to their source stories, blank-identified requirements,
/// entities and criteria dropped, free-text classifications parsed with
/// permissive defaults.
#[verifier::rlimit(100)]
pub fn build_specification(output: &RefineOutput, story_set: &UserStorySet) -> (r: Specification)
    ensures
        ({
            let ov = output.deep_view();
            let stv = story_set.stories.deep_view();
            let rd = r.deep_view();
            &&& rd.id != 0
            &&& rd.status == SpecStatus::Draft
            &&& rd.validation is None
            &&& rd.title == (if stv.len() == 1 {
                stv[0].title
            } else {
                spec_merged_title((stv.len() as usize))
            })
            &&& rd.source_stories == spec_story_ids(stv)
            &&& rd.user_scenarios.len() == ov.user_scenarios.len()
            &&& forall|i: int|
                0 <= i < ov.user_scenarios.len() ==> (#[trigger] rd.user_scenarios[i])
                    == spec_built_scenario(
                    ov.user_scenarios[i],
                    rd.user_scenarios[i].source_story_id,
                ) && (match spec_correlate(
                    stv,
                    ov.user_scenarios[i].id,
                    ov.user_scenarios[i].title,
                    i,
                ) {
                    Option::Some(v) => rd.user_scenarios[i].source_story_id == v,
                    Option::None => rd.user_scenarios[i].source_story_id != 0,
                })
            &&& rd.functional_requirements == spec_kept_frs(ov.functional_requirements)
            &&& rd.key_entities == spec_kept_entities(ov.key_entities)
            &&& rd.edge_cases == spec_built_edges(ov.edge_cases)
            &&& rd.success_criteria == spec_kept_criteria(ov.success_criteria)
            &&& rd.clarifications_needed == spec_built_clarifs(ov.clarifications_needed)
        }),
{
    let ghost ov = output.deep_view();
    let ghost stv = story_set.stories.deep_view();

    let title: String = if story_set.stories.len() == 1 {
        story_set.stories[0].title.clone()
    } else {
        merged_title(story_set.stories.len())
    };
    let mut spec = Specification::new(title);

    // Source story identifiers.
    let mut src: Vec<u128> = Vec::new();
    let mut i: usize = 0;
    while i < story_set.stories.len()
        invariant
            i <= story_set.stories@.len(),
            stv == story_set.stories.deep_view(),
            src@.len() == i,
            forall|k: int| 0 <= k < i ==> src@[k] == spec_story_ids(stv)[k],
        decreases story_set.stories@.len() - i,
    {
        src.push(story_set.stories[i].id);
        i = i + 1;
    }
    proof {
        assert(src.deep_view() =~= spec_story_ids(stv));
    }
    spec.source_stories = src;

    // User scenarios, correlated to their source stories.
    let mut scen: Vec<UserScenario> = Vec::new();
    let ghost mut scv: Seq<UserScenarioView> = Seq::<UserScenarioView>::empty();
    let mut i: usize = 0;
    proof {
        assert(scen.deep_view() =~= scv);
    }
    while i < output.user_scenarios.len()
        invariant
            i <= output.user_scenarios@.len(),
            ov == output.deep_view(),
            stv == story_set.stories.deep_view(),
            scv == scen.deep_view(),
            scv.len() == i,
            forall|k: int|
                0 <= k < i ==> (#[trigger] scv[k]) == spec_built_scenario(
                    ov.user_scenarios[k],
                    scv[k].source_story_id,
                ) && (match spec_correlate(
                    stv,
                    ov.user_scenarios[k].id,
                    ov.user_scenarios[k].title,
                    k,
                ) {
                    Option::Some(v) => scv[k].source_story_id == v,
                    Option::None => scv[k].source_story_id != 0,
                }),
        decreases output.user_scenarios@.len() - i,
    {
        let ls = &output.user_scenarios[i];
        proof {
            assert(ls.deep_view() == ov.user_scenarios[i as int]);
        }
        let sid: u128 = match last_by_external(&story_set.stories, &ls.id) {
            Some(v) => v,
            None => match last_by_title(&story_set.stories, &ls.title) {
                Some(v) => v,
                None => {
                    if i < story_set.stories.len() {
                        story_set.stories[i].id
                    } else {
                        crate::ids::fresh_id()
                    }
                },
            },
        };
        let mut acs: Vec<AcceptanceScenario> = Vec::new();
        let mut k: usize = 0;
        while k < ls.acceptance_scenarios.len()
            invariant
                k <= ls.acceptance_scenarios@.len(),
                acs@.len() == k,
                forall|m: int|
                    0 <= m < k ==> acs.deep_view()[m] == spec_built_acceptances(
                        ls.deep_view().acceptance_scenarios,
                    )[m],
            decreases ls.acceptance_scenarios@.len() - k,
        {
            let a = &ls.acceptance_scenarios[k];
            let ghost pre = acs.deep_view();
            acs.push(
                AcceptanceScenario {
                    given: a.given.clone(),
                    when: a.when.clone(),
                    then_: a.then_.clone(),
                },
            );
            k = k + 1;
            proof {
                assert forall|m: int|
                    0 <= m < k implies acs.deep_view()[m] == spec_built_acceptances(
                    ls.deep_view().acceptance_scenarios,
                )[m] by {
                    if m < k - 1 {
                        assert(acs.deep_view()[m] == pre[m]);
                    }
                }
            }
        }
        proof {
            assert(acs.deep_view() =~= spec_built_acceptances(
                ls.deep_view().acceptance_scenarios,
            ));
        }
        let built = UserScenario {
            id: ls.id.clone(),
            title: ls.title.clone(),
            priority: parse_priority(ls.priority.as_str()),
            description: ls.description.clone(),
            why_priority: ls.why_priority.clone(),
            independent_test: ls.independent_test.clone(),
            acceptance_scenarios: acs,
            source_story_id: sid,
        };
        let ghost bv = built.deep_view();
        proof {
            assert(bv == spec_built_scenario(ov.user_scenarios[i as int], sid as u128));
        }
        scen.push(built);
        i = i + 1;
        proof {
            let prev = scv;
            scv = scv.push(bv);
            assert(scen.deep_view() =~= scv);
            assert forall|k2: int|
                0 <= k2 < i implies (#[trigger] scv[k2]) == spec_built_scenario(
                ov.user_scenarios[k2],
                scv[k2].source_story_id,
            ) && (match spec_correlate(
                stv,
                ov.user_scenarios[k2].id,
                ov.user_scenarios[k2].title,
                k2,
            ) {
                Option::Some(v) => scv[k2].source_story_id == v,
                Option::None => scv[k2].source_story_id != 0,
            }) by {
                if k2 < i - 1 {
                    assert(scv[k2] == prev[k2]);
                }
            }
        }
    }
    spec.user_scenarios = scen;

    // Functional requirements, blanks dropped.
    let mut frs: Vec<FunctionalRequirement> = Vec::new();
    let ghost rfull = ov.functional_requirements;
    let mut i: usize = 0;
    proof {
        assert(rfull.skip(0) =~= rfull);
        assert(frs.deep_view() + spec_kept_frs(rfull.skip(0)) =~= spec_kept_frs(rfull));
    }
    while i < output.functional_requirements.len()
        invariant
            i <= output.functional_requirements@.len(),
            ov == output.deep_view(),
            rfull == ov.functional_requirements,
            frs.deep_view() + spec_kept_frs(rfull.skip(i as int)) =~= spec_kept_frs(rfull),
        decreases output.functional_requirements@.len() - i,
    {
        let ghost rem = rfull.skip(i as int);
        proof {
            assert(rem[0] == rfull[i as int]);
            assert(rem.drop_first() =~= rfull.skip(i + 1));
        }
        let lfr = &output.functional_requirements[i];
        proof {
            assert(lfr.deep_view() == rfull[i as int]);
        }
        if !(is_blank(&lfr.id) || is_blank(&lfr.statement)) {
            let vm = match &lfr.verification_method {
                Some(v) => parse_verification_method(v.as_str()),
                None => crate::specification::VerificationMethod::Test,
            };
            let rl = match &lfr.risk_level {
                Some(v) => Some(parse_risk_level(v.as_str())),
                None => None,
            };
            let qc = match &lfr.quality_characteristic {
                Some(v) => Some(parse_quality_characteristic(v.as_str())),
                None => None,
            };
            let built = FunctionalRequirement {
                id: lfr.id.clone(),
                statement: lfr.statement.clone(),
                priority: parse_priority(lfr.priority.as_str()),
                category: parse_category(lfr.category.as_str()),
                testable: lfr.testable,
                rationale: crate::dup::dup_opt(&lfr.rationale),
                source: crate::dup::dup_opt(&lfr.source),
                verification_method: vm,
                risk_level: rl,
                parent_requirement: crate::dup::dup_opt(&lfr.parent_requirement),
                allocated_to: crate::dup::dup_vec(&lfr.allocated_to),
                quality_characteristic: qc,
            };
            proof {
                assert(built.deep_view() == spec_built_fr(rfull[i as int]));
            }
            frs.push(built);
        }
        i = i + 1;
        proof {
            assert(frs.deep_view() + spec_kept_frs(rfull.skip(i as int)) =~= spec_kept_frs(
                rfull,
            ));
        }
    }
    proof {
        assert(rfull.skip(rfull.len() as int) =~= Seq::<RequirementInputView>::empty());
        assert(frs.deep_view() =~= spec_kept_frs(rfull));
    }
    spec.functional_requirements = frs;

    // Key entities, blanks dropped.
    let mut ents: Vec<KeyEntity> = Vec::new();
    let ghost efull = ov.key_entities;
    let mut i: usize = 0;
    proof {
        assert(efull.skip(0) =~= efull);
        assert(ents.deep_view() + spec_kept_entities(efull.skip(0)) =~= spec_kept_entities(
            efull,
        ));
    }
    while i < output.key_entities.len()
        invariant
            i <= output.key_entities@.len(),
            ov == output.deep_view(),
            efull == ov.key_entities,
            ents.deep_view() + spec_kept_entities(efull.skip(i as int)) =~= spec_kept_entities(
                efull,
            ),
        decreases output.key_entities@.len() - i,
    {
        let ghost rem = efull.skip(i as int);
        proof {
            assert(rem[0] == efull[i as int]);
            assert(rem.drop_first() =~= efull.skip(i + 1));
        }
        let le = &output.key_entities[i];
        proof {
            assert(le.deep_view() == efull[i as int]);
        }
        if !is_blank(&le.name) {
            let built = KeyEntity {
                name: le.name.clone(),
                description: le.description.clone(),
                attributes: crate::dup::dup_vec(&le.attributes),
                relationships: crate::dup::dup_vec(&le.relationships),
            };
            ents.push(built);
        }
        i = i + 1;
        proof {
            assert(ents.deep_view() + spec_kept_entities(efull.skip(i as int))
                =~= spec_kept_entities(efull));
        }
    }
    proof {
        assert(efull.skip(efull.len() as int) =~= Seq::<EntityInputView>::empty());
        assert(ents.deep_view() =~= spec_kept_entities(efull));
    }
    spec.key_entities = ents;

    // Edge cases, all kept.
    let mut edges: Vec<EdgeCase> = Vec::new();
    let mut i: usize = 0;
    while i < output.edge_cases.len()
        invariant
            i <= output.edge_cases@.len(),
            ov == output.deep_view(),
            edges@.len() == i,
            forall|k: int|
                0 <= k < i ==> edges.deep_view()[k] == spec_built_edges(ov.edge_cases)[k],
        decreases output.edge_cases@.len() - i,
    {
        let le = &output.edge_cases[i];
        let ghost pre = edges.deep_view();
        let built = EdgeCase {
            description: le.description.clone(),
            related_scenario: crate::dup::dup_opt(&le.related_scenario),
            severity: parse_priority(le.severity.as_str()),
        };
        proof {
            assert(built.deep_view() == spec_built_edges(ov.edge_cases)[i as int]);
        }
        edges.push(built);
        i = i + 1;
        proof {
            assert forall|k: int|
                0 <= k < i implies edges.deep_view()[k] == spec_built_edges(ov.edge_cases)[k] by {
                if k < i - 1 {
                    assert(edges.deep_view()[k] == pre[k]);
                }
            }
        }
    }
    proof {
        assert(edges.deep_view() =~= spec_built_edges(ov.edge_cases));
    }
    spec.edge_cases = edges;

    // Success criteria, blanks dropped.
    let mut crits: Vec<SuccessCriterion> = Vec::new();
    let ghost cfull = ov.success_criteria;
    let mut i: usize = 0;
    proof {
        assert(cfull.skip(0) =~= cfull);
        assert(crits.deep_view() + spec_kept_criteria(cfull.skip(0)) =~= spec_kept_criteria(
            cfull,
        ));
    }
    while i < output.success_criteria.len()
        invariant
            i <= output.success_criteria@.len(),
            ov == output.deep_view(),
            cfull == ov.success_criteria,
            crits.deep_view() + spec_kept_criteria(cfull.skip(i as int)) =~= spec_kept_criteria(
                cfull,
            ),
        decreases output.success_criteria@.len() - i,
    {
        let ghost rem = cfull.skip(i as int);
        proof {
            assert(rem[0] == cfull[i as int]);
            assert(rem.drop_first() =~= cfull.skip(i + 1));
        }
        let lc = &output.success_criteria[i];
        proof {
            assert(lc.deep_view() == cfull[i as int]);
        }
        if !is_blank(&lc.id) {
            crits.push(
                SuccessCriterion {
                    id: lc.id.clone(),
                    description: lc.description.clone(),
                    measurable_metric: lc.measurable_metric.clone(),
                },
            );
        }
        i = i + 1;
        proof {
            assert(crits.deep_view() + spec_kept_criteria(cfull.skip(i as int))
                =~= spec_kept_criteria(cfull));
        }
    }
    proof {
        assert(cfull.skip(cfull.len() as int) =~= Seq::<CriterionInputView>::empty());
        assert(crits.deep_view() =~= spec_kept_criteria(cfull));
    }
    spec.success_criteria = crits;

    // Clarifications, all kept, unresolved.
    let mut clars: Vec<Clarification> = Vec::new();
    let mut i: usize = 0;
    while i < output.clarifications_needed.len()
        invariant
            i <= output.clarifications_needed@.len(),
            ov == output.deep_view(),
            clars@.len() == i,
            forall|k: int|
                0 <= k < i ==> clars.deep_view()[k] == spec_built_clarifs(
                    ov.clarifications_needed,
                )[k],
        decreases output.clarifications_needed@.len() - i,
    {
        let lc = &output.clarifications_needed[i];
        let ghost pre = clars.deep_view();
        let built = Clarification {
            question: lc.question.clone(),
            context: lc.context.clone(),
            suggested_options: crate::dup::dup_vec(&lc.suggested_options),
            impact: lc.impact.clone(),
            resolved: false,
            answer: None,
        };
        proof {
            assert(built.deep_view() == spec_built_clarifs(ov.clarifications_needed)[i as int]);
        }
        clars.push(built);
        i = i + 1;
        proof {
            assert forall|k: int|
                0 <= k < i implies clars.deep_view()[k] == spec_built_clarifs(
                ov.clarifications_needed,
            )[k] by {
                if k < i - 1 {
                    assert(clars.deep_view()[k] == pre[k]);
                }
            }
        }
    }
    proof {
        assert(clars.deep_view() =~= spec_built_clarifs(ov.clarifications_needed));
    }
    spec.clarifications_needed = clars;

    spec
}


// ---------------------------------------------------------------------------
// The recovery queue
// ---------------------------------------------------------------------------

/// The per-batch specifications of the completed work, in completion order.
pub open spec fn spec_specs_of(s: Seq<(Seq<usize>, SpecificationView)>) -> Seq<SpecificationView> {
    Seq::new(s.len(), |k: int| s[k].1)
}

/// The index batches of the completed work, in completion order.
pub open spec fn spec_batches_of(s: Seq<(Seq<usize>, SpecificationView)>) -> Seq<Seq<usize>> {
    Seq::new(s.len(), |i: int| s[i].0)
}

/// Termination measure of the queue: splitting a batch strictly shrinks it.
pub open spec fn spec_qmeasure(q: Seq<Seq<usize>>) -> nat
    decreases q.len(),
{
    if q.len() == 0 {
        0
    } else {
        (if q[0].len() == 0 {
            1nat
        } else {
            (2 * q[0].len() - 1) as nat
        }) + spec_qmeasure(q.drop_first())
    }
}

/// Copies the stories at the given indices into a batch set.
fn select_stories(story_set: &UserStorySet, idx: &Vec<usize>) -> (r: UserStorySet)
    requires
        forall|k: int| 0 <= k < idx@.len() ==> (#[trigger] idx@[k]) < story_set.stories@.len(),
    ensures
        r.stories@.len() == idx@.len(),
        forall|k: int|
            0 <= k < idx@.len() ==> (#[trigger] r.stories.deep_view()[k])
                == story_set.stories.deep_view()[idx@[k] as int],
        r.language == story_set.language,
{
    let ghost sv = story_set.stories.deep_view();
    let mut stories: Vec<UserStory> = Vec::new();
    let mut k: usize = 0;
    while k < idx.len()
        invariant
            k <= idx@.len(),
            sv == story_set.stories.deep_view(),
            forall|m: int| 0 <= m < idx@.len() ==> (#[trigger] idx@[m]) < sv.len(),
            stories@.len() == k,
            forall|m: int|
                0 <= m < k ==> (#[trigger] stories.deep_view()[m]) == sv[idx@[m] as int],
        decreases idx@.len() - k,
    {
        let j: usize = idx[k];
        let ghost pre = stories.deep_view();
        let elem = story_set.stories[j].duplicate();
        let ghost ev = elem.deep_view();
        proof {
            assert(ev == sv[j as int]);
        }
        stories.push(elem);
        k = k + 1;
        proof {
            assert forall|m: int|
                0 <= m < k implies (#[trigger] stories.deep_view()[m]) == sv[idx@[m] as int] by {
                if m < k - 1 {
                    assert(stories.deep_view()[m] == pre[m]);
                } else {
                    assert(stories.deep_view()[m] == ev);
                }
            }
        }
    }
    let source_files = crate::dup::dup_vec(&story_set.source_files);
    UserStorySet { stories, source_files, language: story_set.language }
}

/// A specification as the refinement exchange hands it back: validated,
/// its status reflecting whether any clarification remains unresolved.
pub open spec fn spec_refined_ok(s: Specification) -> bool {
    &&& s.validation is Some
    &&& s.status == (if spec_has_unresolved(s.clarifications_needed.deep_view()) {
        SpecStatus::NeedsClarification
    } else {
        SpecStatus::Draft
    })
}

/// Refines one batch of stories: renders the system prompt, builds the user
/// prompt, runs the retried exchange with the refinement acceptance rule,
/// and assembles the validated specification. A cut-short response is
/// reported as `OutputTruncated`, exhaustion as `OutputParseFailed`.
pub fn refine_single<P: LlmPort, D: OutputDecoder<RefineOutput>, T: PromptTemplates>(
    port: &mut P,
    decoder: &D,
    templates: &T,
    story_set: &UserStorySet,
    constitution: Option<&str>,
    max_retries: usize,
) -> (r: Result<Specification, RefinementError>)
    requires
        max_retries < usize::MAX,
    ensures
        (r matches Ok(s) ==> spec_refined_ok(s)),
        (r matches Err(RefinementError::OutputTruncated { details }) ==> exists|t: usize, c: nat|
            details@ == crate::executor::spec_truncated_details(t, c)),
{
    let system_prompt = match templates.refine_system(story_set.language) {
        Ok(s) => s,
        Err(e) => {
            let mut msg = String::from_str("Erreur template systeme: ");
            msg.append(e.as_str());
            return Err(RefinementError::LlmFailed { details: msg });
        },
    };
    let user_prompt = build_refine_prompt(story_set, constitution);
    let rule = WithRefineRule { inner: decoder };
    match call_with_retry(port, &rule, system_prompt.as_str(), user_prompt.as_str(), max_retries) {
        Ok(output) => {
            let mut spec = build_specification(&output, story_set);
            let validation = validate_specification(&spec);
            spec.validation = Some(validation);
            if spec.has_unresolved_clarifications() {
                spec.status = SpecStatus::NeedsClarification;
            }
            Ok(spec)
        },
        Err(LlmRetryError::Truncated { details }) => Err(
            RefinementError::OutputTruncated { details },
        ),
        Err(LlmRetryError::Failed { details }) => Err(
            RefinementError::OutputParseFailed { details },
        ),
    }
}

/// Drives the planned batches through the refinement exchange with a
/// double-ended work queue. A batch whose response is cut short is split at
/// the midpoint and both halves are put back at the front, left half first,
/// so the output keeps the input order; a cut-short single-story batch, or
/// any other failure, aborts the run. On success the completed batches'
/// indices, concatenated in completion order, are exactly the input
/// indices: no story is lost or duplicated.
pub fn run_refine_queue<P: LlmPort, D: OutputDecoder<RefineOutput>, T: PromptTemplates>(
    port: &mut P,
    decoder: &D,
    templates: &T,
    story_set: &UserStorySet,
    constitution: Option<&str>,
    max_retries: usize,
    token_budget: usize,
) -> (r: Result<Vec<(Vec<usize>, Specification)>, RefinementError>)
    requires
        max_retries < usize::MAX,
    ensures
        (match r {
            Ok(done) => spec_concat_batches(spec_batches_of(done.deep_view()))
                == spec_index_seq(story_set.stories@.len()) && forall|k: int|
                0 <= k < done@.len() ==> spec_refined_ok((#[trigger] done@[k]).1),
            Err(_) => true,
        }),
        (r matches Err(RefinementError::OutputTruncated { details }) ==> exists|t: usize, c: nat|
            details@ == crate::executor::spec_truncated_details(t, c)),
{
    let ghost n = story_set.stories@.len();
    let batches = build_batches(&story_set.stories, token_budget);
    let mut queue: VecDeque<Vec<usize>> = VecDeque::new();
    if batches.len() <= 1 {
        let mut all: Vec<usize> = Vec::new();
        let count: usize = story_set.stories.len();
        let mut i: usize = 0;
        while i < count
            invariant
                i <= count,
                all@.len() == i,
                forall|m: int| 0 <= m < i ==> (#[trigger] all@[m]) == m as usize,
            decreases count - i,
        {
            all.push(i);
            i = i + 1;
        }
        proof {
            assert(all@ =~= spec_index_seq(n));
        }
        queue.push_back(all);
        proof {
            assert(queue.deep_view() =~~= seq![spec_index_seq(n)]);
            assert(seq![spec_index_seq(n)].drop_first() =~= Seq::<Seq<usize>>::empty());
            assert(spec_concat_batches(seq![spec_index_seq(n)]) == seq![spec_index_seq(n)][0]
                + spec_concat_batches(seq![spec_index_seq(n)].drop_first()));
            assert(spec_concat_batches(queue.deep_view()) =~= spec_index_seq(n));
        }
    } else {
        let ghost bs = batches.deep_view();
        let mut batches = batches;
        while batches.len() > 0
            invariant
                spec_concat_batches(queue.deep_view() + batches.deep_view())
                    =~= spec_concat_batches(bs),
                forall|k: int, m: int|
                    0 <= k < queue.deep_view().len() && 0 <= m < queue.deep_view()[k].len()
                        ==> (#[trigger] queue.deep_view()[k][m]) < n,
                forall|k: int, m: int|
                    0 <= k < batches.deep_view().len() && 0 <= m < batches.deep_view()[k].len()
                        ==> (#[trigger] batches.deep_view()[k][m]) < n,
            decreases batches@.len(),
        {
            let ghost qpre = queue.deep_view();
            let ghost bpre = batches.deep_view();
            let b = batches.remove(0);
            queue.push_back(b);
            proof {
                assert(batches.deep_view() =~~= bpre.drop_first());
                assert(queue.deep_view() =~~= qpre.push(bpre[0]));
                assert(queue.deep_view() + batches.deep_view() =~~= qpre + bpre);
                assert(spec_concat_batches(queue.deep_view() + batches.deep_view())
                    =~= spec_concat_batches(bs));
            }
        }
        proof {
            assert(queue.deep_view() + batches.deep_view() =~~= queue.deep_view());
            assert(spec_concat_batches(queue.deep_view()) =~= spec_concat_batches(bs));
        }
    }

    let mut done: Vec<(Vec<usize>, Specification)> = Vec::new();
    loop
        invariant
            max_retries < usize::MAX,
            n == story_set.stories@.len(),
            spec_concat_batches(spec_batches_of(done.deep_view())) + spec_concat_batches(
                queue.deep_view(),
            ) =~= spec_index_seq(n),
            forall|k: int, m: int|
                0 <= k < queue.deep_view().len() && 0 <= m < queue.deep_view()[k].len()
                    ==> (#[trigger] queue.deep_view()[k][m]) < n,
            forall|k: int| 0 <= k < done@.len() ==> spec_refined_ok((#[trigger] done@[k]).1),
        decreases spec_qmeasure(queue.deep_view()),
    {
        let ghost qpre = queue.deep_view();
        match queue.pop_front() {
            None => {
                proof {
                    assert(spec_concat_batches(spec_batches_of(done.deep_view()))
                        =~= spec_index_seq(n));
                }
                return Ok(done);
            },
            Some(batch) => {
                proof {
                    assert(batch.deep_view() == qpre[0]);
                    assert(queue.deep_view() =~~= qpre.drop_first());
                    assert forall|m: int| 0 <= m < batch@.len() implies (#[trigger] batch@[m])
                        < n by {
                        assert(batch.deep_view()[m] == qpre[0][m]);
                        assert(batch.deep_view()[m] == batch@[m]);
                    }
                }
                let subset = select_stories(story_set, &batch);
                match refine_single(
                    port,
                    decoder,
                    templates,
                    &subset,
                    constitution,
                    max_retries,
                ) {
                    Ok(spec) => {
                        let ghost dpre = done.deep_view();
                        let ghost dex = done@;
                        let ghost bv = batch.deep_view();
                        done.push((batch, spec));
                        proof {
                            assert forall|k: int|
                                0 <= k < done@.len() implies spec_refined_ok(
                                (#[trigger] done@[k]).1,
                            ) by {
                                if k < dex.len() {
                                    assert(done@[k] == dex[k]);
                                } else {
                                    assert(done@[k].1 == spec);
                                }
                            }
                            assert(spec_batches_of(done.deep_view()) =~~= spec_batches_of(
                                dpre,
                            ).push(bv));
                            crate::planner::lemma_concat_batches_push(
                                spec_batches_of(dpre),
                                bv,
                            );
                            assert(spec_concat_batches(spec_batches_of(done.deep_view()))
                                + spec_concat_batches(queue.deep_view()) =~= spec_index_seq(n));
                        }
                    },
                    Err(RefinementError::OutputTruncated { details }) => {
                        if batch.len() > 1 {
                            let mid: usize = batch.len() / 2;
                            let ghost bv = batch.deep_view();
                            let mut left = batch;
                            let right = left.split_off(mid);
                            proof {
                                assert(left@ + right@ =~= bv);
                            }
                            let ghost qmid = queue.deep_view();
                            queue.push_front(right);
                            let ghost qmid2 = queue.deep_view();
                            queue.push_front(left);
                            proof {
                                assert(qmid2 =~~= seq![right@] + qmid);
                                assert(queue.deep_view() =~~= seq![left@] + qmid2);
                                assert(queue.deep_view()[0] == left@);
                                assert(queue.deep_view().drop_first() =~~= qmid2);
                                assert(qmid2.drop_first() =~~= qmid);
                                assert(qmid2[0] == right@ && queue.deep_view()[0] == left@);
                                assert(spec_concat_batches(qmid2) == qmid2[0]
                                    + spec_concat_batches(qmid2.drop_first()));
                                assert(spec_concat_batches(queue.deep_view())
                                    == queue.deep_view()[0] + spec_concat_batches(
                                    queue.deep_view().drop_first(),
                                ));
                                assert(spec_concat_batches(queue.deep_view()) =~= bv
                                    + spec_concat_batches(qmid));
                                assert(spec_concat_batches(spec_batches_of(done.deep_view()))
                                    + spec_concat_batches(queue.deep_view()) =~= spec_index_seq(
                                    n,
                                ));
                                // the measure shrinks: both halves are nonempty
                                assert(left@.len() >= 1 && right@.len() >= 1);
                                assert(spec_qmeasure(qmid2) == (2 * right@.len() - 1)
                                    + spec_qmeasure(qmid));
                                assert(spec_qmeasure(queue.deep_view()) == (2 * left@.len() - 1)
                                    + spec_qmeasure(qmid2));
                                assert(qpre[0] == bv && qpre.drop_first() =~~= qmid);
                                assert(spec_qmeasure(qpre) == (2 * bv.len() - 1)
                                    + spec_qmeasure(qpre.drop_first()));
                                assert(spec_qmeasure(queue.deep_view()) < spec_qmeasure(qpre));
                            }
                        } else {
                            return Err(RefinementError::OutputTruncated { details });
                        }
                    },
                    Err(e) => {
                        return Err(e);
                    },
                }
            },
        }
    }
}

// ---------------------------------------------------------------------------
// The service
// ---------------------------------------------------------------------------

/// Refinement service: batches the stories under a token budget, survives
/// cut-short responses by splitting, and merges the per-batch results.
pub struct RefineService {
    /// Maximum number of retries per generation exchange.
    pub max_retries: usize,
    /// Token budget for one batch's user prompt.
    pub token_budget: usize,
}

impl RefineService {
    pub fn new(max_retries: usize) -> (r: Self)
        ensures
            r.max_retries == max_retries,
            r.token_budget == 6000,
    {
        RefineService { max_retries, token_budget: 6000 }
    }

    pub fn with_token_budget(self, token_budget: usize) -> (r: Self)
        ensures
            r.max_retries == self.max_retries,
            r.token_budget == token_budget,
    {
        RefineService { max_retries: self.max_retries, token_budget }
    }

    /// Refines a set of user stories into one merged, validated
    /// specification, batching under the token budget and recovering from
    /// cut-short responses by splitting batches. On success the result is
    /// validated and its status reflects its unresolved clarifications.
    pub fn refine<P: LlmPort, D: OutputDecoder<RefineOutput>, T: PromptTemplates>(
        &self,
        port: &mut P,
        decoder: &D,
        templates: &T,
        story_set: &UserStorySet,
        constitution: Option<&str>,
    ) -> (r: Result<Specification, RefinementError>)
        requires
            self.max_retries < usize::MAX,
        ensures
            (r matches Ok(s) ==> spec_refined_ok(s)),
            (r matches Ok(s) ==> exists|done: Seq<(Seq<usize>, SpecificationView)>| {
                &&& #[trigger] spec_concat_batches(spec_batches_of(done)) == spec_index_seq(
                    story_set.stories@.len(),
                )
                &&& spec_specs_of(done).len() >= 2 ==> crate::merge::spec_merged_from(
                    spec_specs_of(done),
                    s.deep_view(),
                )
                &&& spec_specs_of(done).len() == 1 ==> s.user_scenarios.deep_view()
                    == spec_specs_of(done)[0].user_scenarios
            }),
            (r matches Err(RefinementError::OutputTruncated { details }) ==> exists|
                t: usize,
                c: nat,
            | details@ == crate::executor::spec_truncated_details(t, c)),
    {
        match run_refine_queue(
            port,
            decoder,
            templates,
            story_set,
            constitution,
            self.max_retries,
            self.token_budget,
        ) {
            Ok(done) => {
                let mut specs: Vec<Specification> = Vec::new();
                let mut done = done;
                let ghost d0 = done@;
                let ghost dw = done.deep_view();
                while done.len() > 0
                    invariant
                        specs@.len() + done@.len() == d0.len(),
                        forall|k: int| 0 <= k < specs@.len() ==> #[trigger] specs@[k] == d0[k].1,
                        forall|k: int|
                            0 <= k < done@.len() ==> #[trigger] done@[k] == d0[
                                specs@.len() + k
                            ],
                    decreases done@.len(),
                {
                    let ghost spre = specs@;
                    let ghost dpre = done@;
                    let (_batch, spec) = done.remove(0);
                    proof {
                        assert(spec == dpre[0].1);
                        assert(dpre[0] == d0[spre.len() as int]);
                    }
                    specs.push(spec);
                }
                proof {
                    assert forall|k: int|
                        0 <= k < specs@.len() implies spec_refined_ok(
                        #[trigger] specs@[k],
                    ) by {
                        assert(specs@[k] == d0[k].1);
                    }
                }
                let ghost merge_input = specs@;
                let ghost miv = Seq::new(merge_input.len() as nat, |k: int| merge_input[k].deep_view());
                let ghost spv = specs.deep_view();
                let mut merged = merge_specifications(specs);
                let ghost premerge = merged.deep_view();
                proof {
                    assert(miv =~= spec_specs_of(dw));
                    if merge_input.len() == 1 {
                        assert(merged.deep_view().status == merged.status);
                        assert(merged.deep_view().clarifications_needed
                            == merged.clarifications_needed.deep_view());
                        assert(merged.deep_view() == merge_input[0].deep_view());
                        assert(merged.status == merge_input[0].status);
                        assert(merged.clarifications_needed.deep_view()
                            == merge_input[0].clarifications_needed.deep_view());
                        assert(spec_refined_ok(merge_input[0]));
                    }
                }
                let validation = validate_specification(&merged);
                merged.validation = Some(validation);
                if merged.has_unresolved_clarifications() {
                    merged.status = SpecStatus::NeedsClarification;
                }
                proof {
                    let mv = merged.deep_view();
                    assert(mv.title == premerge.title);
                    assert(mv.functional_requirements == premerge.functional_requirements);
                    assert(mv.user_scenarios == premerge.user_scenarios);
                    assert(mv.success_criteria == premerge.success_criteria);
                    assert(mv.edge_cases == premerge.edge_cases);
                    assert(mv.key_entities == premerge.key_entities);
                    assert(mv.clarifications_needed == premerge.clarifications_needed);
                    assert(mv.source_stories == premerge.source_stories);
                    if miv.len() >= 2 {
                        assert(miv =~= spv);
                        assert(crate::merge::spec_merged_from(spv, premerge));
                        crate::merge::lemma_merged_from_same_content(miv, premerge, mv);
                        assert(crate::merge::spec_merged_from(miv, mv));
                        assert(crate::merge::spec_merged_from(spec_specs_of(dw), mv));
                    }
                    if miv.len() == 1 {
                        assert(mv.user_scenarios == miv[0].user_scenarios);
                        assert(merged.user_scenarios.deep_view() == spec_specs_of(
                            dw,
                        )[0].user_scenarios);
                    }
                    assert(spec_concat_batches(spec_batches_of(dw)) == spec_index_seq(
                        story_set.stories@.len(),
                    ));
                }
                Ok(merged)
            },
            Err(e) => Err(e),
        }
    }
}

} // verus!
