//! Text sanitizer: extracts the structured payload out of free-form generated
//! text. Reasoning asides (`<think>` blocks) are stripped, fenced code blocks
//! are unwrapped, and as a fallback the span between the first `{` and the
//! last `}` is taken. Total: it never fails, whatever the input.

use vstd::prelude::*;

use crate::textutil::{
    append_chars, chars_to_string, find_char_from, find_from, match_at, rfind_char, spec_find,
    spec_find_char_from, spec_find_from, spec_rfind_char, spec_trim, subvec, to_chars, trim,
    spec_digits, push_u64_digits, append_str,
};

verus! {

// ---------------------------------------------------------------------------
// The markers, as concrete character sequences
// ---------------------------------------------------------------------------

pub open spec fn think_open() -> Seq<char> {
    seq!['<', 't', 'h', 'i', 'n', 'k', '>']
}

pub open spec fn think_close() -> Seq<char> {
    seq!['<', '/', 't', 'h', 'i', 'n', 'k', '>']
}

pub open spec fn fence_json() -> Seq<char> {
    seq!['`', '`', '`', 'j', 's', 'o', 'n']
}

pub open spec fn fence() -> Seq<char> {
    seq!['`', '`', '`']
}

fn think_open_chars() -> (v: Vec<char>)
    ensures
        v@ == think_open(),
{
    let mut v: Vec<char> = Vec::new();
    v.push('<');
    v.push('t');
    v.push('h');
    v.push('i');
    v.push('n');
    v.push('k');
    v.push('>');
    proof {
        assert(v@ =~= think_open());
    }
    v
}

fn think_close_chars() -> (v: Vec<char>)
    ensures
        v@ == think_close(),
{
    let mut v: Vec<char> = Vec::new();
    v.push('<');
    v.push('/');
    v.push('t');
    v.push('h');
    v.push('i');
    v.push('n');
    v.push('k');
    v.push('>');
    proof {
        assert(v@ =~= think_close());
    }
    v
}

fn fence_json_chars() -> (v: Vec<char>)
    ensures
        v@ == fence_json(),
{
    let mut v: Vec<char> = Vec::new();
    v.push('`');
    v.push('`');
    v.push('`');
    v.push('j');
    v.push('s');
    v.push('o');
    v.push('n');
    proof {
        assert(v@ =~= fence_json());
    }
    v
}

fn fence_chars() -> (v: Vec<char>)
    ensures
        v@ == fence(),
{
    let mut v: Vec<char> = Vec::new();
    v.push('`');
    v.push('`');
    v.push('`');
    proof {
        assert(v@ =~= fence());
    }
    v
}

// ---------------------------------------------------------------------------
// Stripping reasoning blocks
// ---------------------------------------------------------------------------

/// One pass of the stripping loop: `acc` is the text kept so far, `rem` the
/// text still to scan. A complete `<think>...</think>` block is dropped and
/// the scan continues; an unmatched `<think>` drops everything to the end of
/// the text and the kept text is trimmed.
pub open spec fn spec_strip_think_loop(rem: Seq<char>, acc: Seq<char>) -> Seq<char>
    decreases rem.len(),
    via strip_think_loop_decreases
{
    match spec_find(rem, think_open()) {
        Option::None => acc + rem,
        Option::Some(i) => {
            let after = rem.skip(i + think_open().len() as int);
            match spec_find(after, think_close()) {
                Option::None => spec_trim(acc + rem.take(i)),
                Option::Some(j) => spec_strip_think_loop(
                    after.skip(j + think_close().len() as int),
                    acc + rem.take(i),
                ),
            }
        },
    }
}

#[via_fn]
proof fn strip_think_loop_decreases(rem: Seq<char>, acc: Seq<char>) {
    match spec_find(rem, think_open()) {
        Option::Some(i) => {
            crate::textutil::lemma_find_from_some(rem, think_open(), 0, i);
            let after = rem.skip(i + think_open().len() as int);
            match spec_find(after, think_close()) {
                Option::Some(j) => {
                    crate::textutil::lemma_find_from_some(after, think_close(), 0, j);
                },
                Option::None => {},
            }
        },
        Option::None => {},
    }
}

/// All `<think>` blocks removed, as `strip_think_blocks` returns it.
pub open spec fn spec_strip_think(s: Seq<char>) -> Seq<char> {
    spec_strip_think_loop(s, Seq::<char>::empty())
}

fn strip_think_chars(s: &Vec<char>) -> (r: Vec<char>)
    ensures
        r@ == spec_strip_think(s@),
{
    let open = think_open_chars();
    let close = think_close_chars();
    let mut rem: Vec<char> = subvec(s, 0, s.len());
    let mut acc: Vec<char> = Vec::new();
    proof {
        assert(s@.subrange(0, s@.len() as int) =~= s@);
    }
    loop
        invariant
            spec_strip_think(s@) == spec_strip_think_loop(rem@, acc@),
            open@ == think_open(),
            close@ == think_close(),
        decreases rem@.len(),
    {
        let rem_len: usize = rem.len();
        match find_from(&rem, &open, 0) {
            None => {
                append_chars(&mut acc, &rem);
                return acc;
            },
            Some(i) => {
                let after_start: usize = i + open.len();
                assert(after_start <= rem@.len());
                let after = subvec(&rem, after_start, rem_len);
                proof {
                    assert(after@ =~= rem@.skip(i + think_open().len() as int));
                }
                let prefix = subvec(&rem, 0, i);
                proof {
                    assert(prefix@ =~= rem@.take(i as int));
                }
                match find_from(&after, &close, 0) {
                    None => {
                        append_chars(&mut acc, &prefix);
                        return trim(&acc);
                    },
                    Some(j) => {
                        let next_start: usize = j + close.len();
                        assert(next_start <= after@.len());
                        let next = subvec(&after, next_start, after.len());
                        proof {
                            assert(next@ =~= after@.skip(j + think_close().len() as int));
                        }
                        append_chars(&mut acc, &prefix);
                        rem = next;
                    },
                }
            },
        }
    }
}

/// Removes every `<think>...</think>` block from a generated response. An
/// unmatched opening marker (a response truncated mid-thought) drops
/// everything from the marker to the end of the text.
pub fn strip_think_blocks(input: &str) -> (r: String)
    ensures
        r@ == spec_strip_think(input@),
{
    let v = to_chars(input);
    let stripped = strip_think_chars(&v);
    chars_to_string(&stripped)
}

// ---------------------------------------------------------------------------
// Payload extraction
// ---------------------------------------------------------------------------

/// The fallback span between the first `{` and the last `}` (inclusive), if
/// both exist in that order; otherwise the text unchanged.
pub open spec fn spec_clean_braces(t: Seq<char>) -> Seq<char> {
    match spec_find_char_from(t, '{', 0) {
        Option::Some(a) => match spec_rfind_char(t, '}') {
            Option::Some(b) => if a <= b {
                t.subrange(a, b + 1)
            } else {
                t
            },
            Option::None => t,
        },
        Option::None => t,
    }
}

/// A bare ``` fenced block: its inner content trimmed, skipping the rest of
/// the opening fence's line; else the brace fallback.
pub open spec fn spec_clean_fence(t: Seq<char>) -> Seq<char> {
    match spec_find(t, fence()) {
        Option::Some(i) => {
            let js = i + fence().len() as int;
            let actual = match spec_find_char_from(t, '\n', js) {
                Option::Some(n) => n + 1,
                Option::None => js,
            };
            match spec_find_from(t, fence(), actual) {
                Option::Some(e) => spec_trim(t.subrange(actual, e)),
                Option::None => spec_clean_braces(t),
            }
        },
        Option::None => spec_clean_braces(t),
    }
}

/// A ```json fenced block: its inner content trimmed; else the bare fence
/// case; else the brace fallback.
pub open spec fn spec_clean_trimmed(t: Seq<char>) -> Seq<char> {
    match spec_find(t, fence_json()) {
        Option::Some(i) => {
            let js = i + fence_json().len() as int;
            match spec_find_from(t, fence(), js) {
                Option::Some(e) => spec_trim(t.subrange(js, e)),
                Option::None => spec_clean_fence(t),
            }
        },
        Option::None => spec_clean_fence(t),
    }
}

/// What `clean_json_response` extracts from a raw response.
pub open spec fn spec_clean_json_response(s: Seq<char>) -> Seq<char> {
    spec_clean_trimmed(spec_trim(spec_strip_think(s)))
}

fn clean_braces(t: &Vec<char>) -> (r: Vec<char>)
    ensures
        r@ == spec_clean_braces(t@),
{
    let tl: usize = t.len();
    match find_char_from(t, '{', 0) {
        Some(a) => match rfind_char(t, '}') {
            Some(b) => {
                if a <= b {
                    assert(b < t@.len());
                    subvec(t, a, b + 1)
                } else {
                    subvec(t, 0, t.len())
                }
            },
            None => subvec(t, 0, t.len()),
        },
        None => subvec(t, 0, t.len()),
    }
}

fn clean_fence(t: &Vec<char>) -> (r: Vec<char>)
    ensures
        r@ == spec_clean_fence(t@),
{
    let tl: usize = t.len();
    let fence_pat = fence_chars();
    match find_from(t, &fence_pat, 0) {
        Some(i) => {
            let js: usize = i + fence_pat.len();
            assert(js <= t@.len());
            let actual: usize = match find_char_from(t, '\n', js) {
                Some(n) => {
                    assert(n < t@.len());
                    n + 1
                },
                None => js,
            };
            match find_from(t, &fence_pat, actual) {
                Some(e) => {
                    assert(actual <= e <= t@.len());
                    let inner = subvec(t, actual, e);
                    trim(&inner)
                },
                None => clean_braces(t),
            }
        },
        None => clean_braces(t),
    }
}

fn clean_trimmed(t: &Vec<char>) -> (r: Vec<char>)
    ensures
        r@ == spec_clean_trimmed(t@),
{
    let tl: usize = t.len();
    let json_pat = fence_json_chars();
    let fence_pat = fence_chars();
    match find_from(t, &json_pat, 0) {
        Some(i) => {
            let js: usize = i + json_pat.len();
            assert(js <= t@.len());
            match find_from(t, &fence_pat, js) {
                Some(e) => {
                    assert(js <= e <= t@.len());
                    let inner = subvec(t, js, e);
                    trim(&inner)
                },
                None => clean_fence(t),
            }
        },
        None => clean_fence(t),
    }
}

/// Extracts the structured payload from a raw generated response: strips
/// `<think>` blocks, unwraps ```json or bare ``` fences, and falls back to
/// the span between the first `{` and the last `}`. Never fails, for any
/// input.
pub fn clean_json_response(response: &str) -> (r: String)
    ensures
        r@ == spec_clean_json_response(response@),
{
    let v = to_chars(response);
    let stripped = strip_think_chars(&v);
    let t = trim(&stripped);
    let cleaned = clean_trimmed(&t);
    chars_to_string(&cleaned)
}

// ---------------------------------------------------------------------------
// Log truncation
// ---------------------------------------------------------------------------

/// What `truncate_for_log` appends after the kept prefix.
pub open spec fn spec_truncation_note(total: nat) -> Seq<char> {
    "... [tronque, "@ + spec_digits(total) + " chars total]"@
}

/// A log-friendly prefix of `text`: the whole text when it is short enough,
/// otherwise its first `max_chars` characters and a note with the total
/// length.
pub fn truncate_for_log(text: &str, max_chars: usize) -> (r: String)
    ensures
        text@.len() <= max_chars ==> r@ == text@,
        text@.len() > max_chars ==> r@ == text@.take(max_chars as int) + spec_truncation_note(
            text@.len(),
        ),
{
    let v = to_chars(text);
    if v.len() <= max_chars {
        chars_to_string(&v)
    } else {
        let mut out = subvec(&v, 0, max_chars);
        append_str(&mut out, "... [tronque, ");
        push_u64_digits(v.len() as u64, &mut out);
        append_str(&mut out, " chars total]");
        chars_to_string(&out)
    }
}

} // verus!
