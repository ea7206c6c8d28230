//! Batch planner: splits the ordered input into size-bounded batches by a
//! greedy accumulation under a token budget. The planner never drops input:
//! the batches' items, concatenated in order, are exactly the input.

use vstd::prelude::*;
use vstd::string::*;

use crate::specification::{Specification, SpecificationView, UserScenarioView};
use crate::story::{UserStory, UserStoryView};
use crate::textutil::{sat_add_usize, spec_cap_usize, spec_sat_add_usize};

verus! {

/// A character count capped to the machine range.
pub open spec fn cap_len(s: Seq<char>) -> usize {
    spec_cap_usize(s.len())
}

/// Character count of a story's cost-relevant fields, saturating.
pub open spec fn spec_fold_lens(acc: usize, cs: Seq<Seq<char>>) -> usize
    decreases cs.len(),
{
    if cs.len() == 0 {
        acc
    } else {
        spec_fold_lens(spec_sat_add_usize(acc, cap_len(cs[0])), cs.drop_first())
    }
}

pub open spec fn spec_story_chars(s: UserStoryView) -> usize {
    spec_fold_lens(
        spec_sat_add_usize(
            spec_sat_add_usize(
                spec_sat_add_usize(
                    spec_sat_add_usize(cap_len(s.title), cap_len(s.actor)),
                    cap_len(s.action),
                ),
                cap_len(s.benefit),
            ),
            cap_len(s.raw_text),
        ),
        s.acceptance_criteria,
    )
}

/// Estimated token cost of one story: its character count divided by four.
pub open spec fn spec_story_tokens(s: UserStoryView) -> usize {
    spec_story_chars(s) / 4
}

/// Estimates the token cost of a story for one generation request.
pub fn estimate_story_tokens(story: &UserStory) -> (r: usize)
    ensures
        r == spec_story_tokens(story.deep_view()),
{
    let ghost sv = story.deep_view();
    let mut acc: usize = story.title.as_str().unicode_len();
    acc = sat_add_usize(acc, story.actor.as_str().unicode_len());
    acc = sat_add_usize(acc, story.action.as_str().unicode_len());
    acc = sat_add_usize(acc, story.benefit.as_str().unicode_len());
    acc = sat_add_usize(acc, story.raw_text.as_str().unicode_len());
    let mut i: usize = 0;
    proof {
        assert(sv.acceptance_criteria.skip(0) =~= sv.acceptance_criteria);
    }
    while i < story.acceptance_criteria.len()
        invariant
            i <= story.acceptance_criteria@.len(),
            sv == story.deep_view(),
            spec_fold_lens(acc, sv.acceptance_criteria.skip(i as int)) == spec_story_chars(sv),
        decreases story.acceptance_criteria@.len() - i,
    {
        let ghost rem = sv.acceptance_criteria.skip(i as int);
        proof {
            assert(rem[0] == sv.acceptance_criteria[i as int]);
            assert(rem.drop_first() =~= sv.acceptance_criteria.skip(i + 1));
        }
        acc = sat_add_usize(acc, story.acceptance_criteria[i].as_str().unicode_len());
        i = i + 1;
    }
    proof {
        assert(sv.acceptance_criteria.skip(sv.acceptance_criteria.len() as int)
            =~= Seq::<Seq<char>>::empty());
    }
    acc / 4
}

/// The indices 0, 1, ..., n-1.
pub open spec fn spec_index_seq(n: nat) -> Seq<usize> {
    Seq::new(n, |k: int| k as usize)
}

/// The batches' contents, concatenated in order.
pub open spec fn spec_concat_batches(bs: Seq<Seq<usize>>) -> Seq<usize>
    decreases bs.len(),
{
    if bs.len() == 0 {
        Seq::<usize>::empty()
    } else {
        bs[0] + spec_concat_batches(bs.drop_first())
    }
}

/// Token cost of the story at an index (0 outside the input).
pub open spec fn spec_story_tokens_of(stories: Seq<UserStoryView>, i: usize) -> usize {
    if i < stories.len() {
        spec_story_tokens(stories[i as int])
    } else {
        0
    }
}

/// Exact token cost of a batch of story indices.
pub open spec fn spec_batch_cost(stories: Seq<UserStoryView>, b: Seq<usize>) -> nat
    decreases b.len(),
{
    if b.len() == 0 {
        0
    } else {
        spec_story_tokens_of(stories, b[0]) as nat + spec_batch_cost(stories, b.drop_first())
    }
}

proof fn lemma_batch_cost_push(stories: Seq<UserStoryView>, b: Seq<usize>, x: usize)
    ensures
        spec_batch_cost(stories, b.push(x)) == spec_batch_cost(stories, b)
            + spec_story_tokens_of(stories, x),
    decreases b.len(),
{
    assert(b.push(x)[0] == if b.len() == 0 {
        x
    } else {
        b[0]
    });
    assert(spec_batch_cost(stories, b.push(x)) == spec_story_tokens_of(stories, b.push(x)[0])
        + spec_batch_cost(stories, b.push(x).drop_first()));
    if b.len() == 0 {
        assert(b.push(x).drop_first() =~= Seq::<usize>::empty());
        assert(spec_batch_cost(stories, b.push(x).drop_first()) == 0);
    } else {
        assert(b.push(x).drop_first() =~= b.drop_first().push(x));
        lemma_batch_cost_push(stories, b.drop_first(), x);
    }
}

/// Splits the stories into ordered batches of indices under the token
/// budget. Greedy: a batch is closed as soon as the next story would push it
/// past the budget; a story whose cost alone exceeds the budget forms a
/// singleton batch; no story is dropped or duplicated.
pub fn build_batches(stories: &Vec<UserStory>, token_budget: usize) -> (r: Vec<Vec<usize>>)
    ensures
        spec_concat_batches(r.deep_view()) == spec_index_seq(stories@.len()),
        forall|k: int| 0 <= k < r.deep_view().len() ==> r.deep_view()[k].len() > 0,
        forall|k: int|
            0 <= k < r.deep_view().len() && r.deep_view()[k].len() > 1 ==> spec_batch_cost(
                stories.deep_view(),
                r.deep_view()[k],
            ) <= token_budget,
        forall|k: int|
            0 <= k < r.deep_view().len() - 1 ==> spec_batch_cost(
                stories.deep_view(),
                r.deep_view()[k],
            ) + spec_story_tokens_of(stories.deep_view(), r.deep_view()[k + 1][0])
                > token_budget,
        forall|k: int, m: int|
            0 <= k < r.deep_view().len() && 0 <= m < r.deep_view()[k].len()
                ==> (#[trigger] r.deep_view()[k][m]) < stories@.len(),
{
    let ghost sv = stories.deep_view();
    let mut batches: Vec<Vec<usize>> = Vec::new();
    let mut current: Vec<usize> = Vec::new();
    let mut current_tokens: usize = 0;
    let n: usize = stories.len();
    let mut i: usize = 0;
    while i < n
        invariant
            n == sv.len(),
            sv == stories.deep_view(),
            i <= n,
            spec_concat_batches(batches.deep_view()) + current@ =~= spec_index_seq(i as nat),
            current_tokens == spec_batch_cost(sv, current@),
            current@.len() > 1 ==> current_tokens <= token_budget,
            forall|k: int| 0 <= k < batches.deep_view().len() ==> batches.deep_view()[k].len() > 0,
            forall|k: int|
                0 <= k < batches.deep_view().len() && batches.deep_view()[k].len() > 1
                    ==> spec_batch_cost(sv, batches.deep_view()[k]) <= token_budget,
            forall|k: int|
                0 <= k < batches.deep_view().len() - 1 ==> spec_batch_cost(
                    sv,
                    batches.deep_view()[k],
                ) + spec_story_tokens_of(sv, batches.deep_view()[k + 1][0]) > token_budget,
            batches.deep_view().len() > 0 ==> current@.len() > 0,
            forall|k: int, m: int|
                0 <= k < batches.deep_view().len() && 0 <= m < batches.deep_view()[k].len()
                    ==> (#[trigger] batches.deep_view()[k][m]) < n,
            forall|m: int| 0 <= m < current@.len() ==> (#[trigger] current@[m]) < n,
            batches.deep_view().len() > 0 && current@.len() > 0 ==> spec_batch_cost(
                sv,
                batches.deep_view()[batches.deep_view().len() - 1],
            ) + spec_story_tokens_of(sv, current@[0]) > token_budget,
        decreases n - i,
    {
        let tokens = estimate_story_tokens(&stories[i]);
        proof {
            assert(stories.deep_view()[i as int] == stories[i as int].deep_view());
            assert(spec_story_tokens_of(sv, i) == tokens);
        }
        let exceeds: bool = match current_tokens.checked_add(tokens) {
            Some(s) => s > token_budget,
            None => true,
        };
        if current.len() > 0 && exceeds {
            let ghost bpre = batches.deep_view();
            let finished = current;
            current = Vec::new();
            current_tokens = 0;
            batches.push(finished);
            proof {
                assert(batches.deep_view() =~~= bpre.push(finished@));
                assert(spec_concat_batches(batches.deep_view()) =~= spec_concat_batches(bpre)
                    + finished@) by {
                    lemma_concat_batches_push(bpre, finished@);
                }
                assert(current@ =~= Seq::<usize>::empty());
                assert(spec_concat_batches(bpre) + finished@ == spec_index_seq(i as nat));
                assert(spec_concat_batches(batches.deep_view()) == spec_concat_batches(bpre)
                    + finished@);
                assert(spec_index_seq(i as nat) + Seq::<usize>::empty() =~= spec_index_seq(
                    i as nat,
                ));
                assert(spec_concat_batches(batches.deep_view()) + current@ == spec_index_seq(
                    i as nat,
                ) + Seq::<usize>::empty());
                assert(spec_concat_batches(batches.deep_view()) + current@ =~= spec_index_seq(
                    i as nat,
                ));
            }
        }
        let ghost cpre = current@;
        current.push(i);
        proof {
            lemma_batch_cost_push(sv, cpre, i);
        }
        current_tokens = sat_add_usize(current_tokens, tokens);
        proof {
            // the sum fits: either the batch was empty (cost == tokens) or
            // the checked comparison showed it stays within the budget
            assert(current_tokens == spec_batch_cost(sv, current@));
        }
        proof {
            assert(spec_concat_batches(batches.deep_view()) + cpre =~= spec_index_seq(i as nat));
            assert(current@ =~= cpre.push(i));
            assert(spec_concat_batches(batches.deep_view()) + current@ =~= spec_index_seq(
                i as nat,
            ).push(i));
        }
        i = i + 1;
        proof {
            assert(spec_index_seq((i - 1) as nat).push((i - 1) as usize) =~= spec_index_seq(
                i as nat,
            ));
        }
    }
    if current.len() > 0 {
        let ghost bpre = batches.deep_view();
        let finished = current;
        batches.push(finished);
        proof {
            assert(batches.deep_view() =~~= bpre.push(finished@));
            lemma_concat_batches_push(bpre, finished@);
        }
    }
    proof {
        assert(spec_concat_batches(batches.deep_view()) =~= spec_index_seq(sv.len()));
    }
    batches
}

pub proof fn lemma_concat_batches_push(bs: Seq<Seq<usize>>, b: Seq<usize>)
    ensures
        spec_concat_batches(bs.push(b)) == spec_concat_batches(bs) + b,
    decreases bs.len(),
{
    assert(spec_concat_batches(bs.push(b)) == bs.push(b)[0] + spec_concat_batches(
        bs.push(b).drop_first(),
    ));
    if bs.len() == 0 {
        assert(bs.push(b)[0] == b);
        assert(bs.push(b).drop_first() =~= Seq::<Seq<usize>>::empty());
        assert(spec_concat_batches(bs.push(b).drop_first())
            == Seq::<usize>::empty());
        assert(spec_concat_batches(bs.push(b)) =~= spec_concat_batches(bs) + b);
    } else {
        assert(bs.push(b)[0] == bs[0]);
        assert(bs.push(b).drop_first() =~= bs.drop_first().push(b));
        assert(spec_concat_batches(bs.push(b).drop_first()) == spec_concat_batches(
            bs.drop_first().push(b),
        ));
        lemma_concat_batches_push(bs.drop_first(), b);
        assert(spec_concat_batches(bs.push(b)) =~= spec_concat_batches(bs) + b);
    }
}

} // verus!
