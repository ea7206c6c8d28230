//! Character-level helpers shared by the sanitizer, the parsers and the
//! validation rules: conversions between `&str` and `Vec<char>`, substring
//! search, trimming, ASCII case folding and decimal rendering of counters.

use vstd::prelude::*;

verus! {

// ---------------------------------------------------------------------------
// Character predicates
// ---------------------------------------------------------------------------

/// The Unicode `White_Space` code points, as used by `str::trim`.
pub open spec fn spec_is_whitespace(c: char) -> bool {
    c == ' ' || c == '\t' || c == '\n' || c == '\r' || c == '\u{0B}' || c == '\u{0C}'
        || c == '\u{85}' || c == '\u{A0}' || c == '\u{1680}' || ('\u{2000}' <= c && c
        <= '\u{200A}') || c == '\u{2028}' || c == '\u{2029}' || c == '\u{202F}' || c == '\u{205F}'
        || c == '\u{3000}'
}

pub fn is_whitespace_char(c: char) -> (r: bool)
    ensures
        r == spec_is_whitespace(c),
{
    c == ' ' || c == '\t' || c == '\n' || c == '\r' || c == '\u{0B}' || c == '\u{0C}'
        || c == '\u{85}' || c == '\u{A0}' || c == '\u{1680}' || ('\u{2000}' <= c && c
        <= '\u{200A}') || c == '\u{2028}' || c == '\u{2029}' || c == '\u{202F}' || c == '\u{205F}'
        || c == '\u{3000}'
}

pub open spec fn spec_is_ascii_alnum(c: char) -> bool {
    ('0' <= c && c <= '9') || ('a' <= c && c <= 'z') || ('A' <= c && c <= 'Z')
}

pub fn is_ascii_alnum_char(c: char) -> (r: bool)
    ensures
        r == spec_is_ascii_alnum(c),
{
    ('0' <= c && c <= '9') || ('a' <= c && c <= 'z') || ('A' <= c && c <= 'Z')
}

/// Lower-casing of a single character over ASCII and the Latin-1 accented
/// letters ('\u{c0}'..='\u{de}' except the multiplication sign), plus the
/// two-letter ligature and the accented Y that French title-casing uses;
/// anything else, including the sharp s (whose lower form is itself),
/// is left unchanged.
pub open spec fn spec_fold_lower_char(c: char) -> char {
    if 'A' <= c && c <= 'Z' {
        ((c as u8) + 32) as char
    } else if '\u{c0}' <= c && c <= '\u{de}' && c != '\u{d7}' {
        ((c as u8) + 32) as char
    } else if c == '\u{152}' {
        '\u{153}'
    } else if c == '\u{178}' {
        '\u{ff}'
    } else {
        c
    }
}

pub fn fold_lower_char(c: char) -> (r: char)
    ensures
        r == spec_fold_lower_char(c),
{
    if 'A' <= c && c <= 'Z' {
        (((c as u8) + 32) as char)
    } else if '\u{c0}' <= c && c <= '\u{de}' && c != '\u{d7}' {
        (((c as u8) + 32) as char)
    } else if c == '\u{152}' {
        '\u{153}'
    } else if c == '\u{178}' {
        '\u{ff}'
    } else {
        c
    }
}

/// Upper-casing of a single character over the same range: ASCII and the
/// Latin-1 accented letters ('\u{e0}'..='\u{fe}' except the division
/// sign), the ligature and the accented y. The sharp s, whose upper form
/// is two letters, is left unchanged.
pub open spec fn spec_fold_upper_char(c: char) -> char {
    if 'a' <= c && c <= 'z' {
        ((c as u8) - 32) as char
    } else if '\u{e0}' <= c && c <= '\u{fe}' && c != '\u{f7}' {
        ((c as u8) - 32) as char
    } else if c == '\u{153}' {
        '\u{152}'
    } else if c == '\u{ff}' {
        '\u{178}'
    } else {
        c
    }
}

pub fn fold_upper_char(c: char) -> (r: char)
    ensures
        r == spec_fold_upper_char(c),
{
    if 'a' <= c && c <= 'z' {
        (((c as u8) - 32) as char)
    } else if '\u{e0}' <= c && c <= '\u{fe}' && c != '\u{f7}' {
        (((c as u8) - 32) as char)
    } else if c == '\u{153}' {
        '\u{152}'
    } else if c == '\u{ff}' {
        '\u{178}'
    } else {
        c
    }
}

pub open spec fn spec_fold_lower(s: Seq<char>) -> Seq<char> {
    s.map_values(|c: char| spec_fold_lower_char(c))
}

pub open spec fn spec_fold_upper(s: Seq<char>) -> Seq<char> {
    s.map_values(|c: char| spec_fold_upper_char(c))
}

pub fn fold_lower(s: &Vec<char>) -> (r: Vec<char>)
    ensures
        r@ == spec_fold_lower(s@),
{
    let mut r: Vec<char> = Vec::new();
    let mut i: usize = 0;
    while i < s.len()
        invariant
            i <= s@.len(),
            r@ =~= spec_fold_lower(s@.take(i as int)),
        decreases s@.len() - i,
    {
        r.push(fold_lower_char(s[i]));
        i = i + 1;
        assert(r@ =~= spec_fold_lower(s@.take(i as int)));
    }
    assert(s@.take(s@.len() as int) =~= s@);
    r
}

pub fn fold_upper(s: &Vec<char>) -> (r: Vec<char>)
    ensures
        r@ == spec_fold_upper(s@),
{
    let mut r: Vec<char> = Vec::new();
    let mut i: usize = 0;
    while i < s.len()
        invariant
            i <= s@.len(),
            r@ =~= spec_fold_upper(s@.take(i as int)),
        decreases s@.len() - i,
    {
        r.push(fold_upper_char(s[i]));
        i = i + 1;
        assert(r@ =~= spec_fold_upper(s@.take(i as int)));
    }
    assert(s@.take(s@.len() as int) =~= s@);
    r
}

// ---------------------------------------------------------------------------
// Conversions between strings and character vectors
// ---------------------------------------------------------------------------

/// Relies on std `String::push`: appends exactly the given character.
#[verifier::external_body]
pub fn string_push(s: &mut String, c: char)
    ensures
        final(s)@ == old(s)@.push(c),
{
    s.push(c);
}

pub fn to_chars(s: &str) -> (v: Vec<char>)
    ensures
        v@ == s@,
{
    let n: usize = s.unicode_len();
    let mut v: Vec<char> = Vec::new();
    let mut i: usize = 0;
    while i < n
        invariant
            n == s@.len(),
            i <= n,
            v@ =~= s@.take(i as int),
        decreases n - i,
    {
        v.push(s.get_char(i));
        i = i + 1;
        assert(v@ =~= s@.take(i as int));
    }
    assert(s@.take(n as int) =~= s@);
    v
}

pub fn chars_to_string(v: &Vec<char>) -> (s: String)
    ensures
        s@ == v@,
{
    let mut s = String::new();
    let mut i: usize = 0;
    while i < v.len()
        invariant
            i <= v@.len(),
            s@ =~= v@.take(i as int),
        decreases v@.len() - i,
    {
        string_push(&mut s, v[i]);
        i = i + 1;
        assert(s@ =~= v@.take(i as int));
    }
    assert(v@.take(v@.len() as int) =~= v@);
    s
}

/// Copies `s[from..to]` into a fresh vector.
pub fn subvec(s: &Vec<char>, from: usize, to: usize) -> (r: Vec<char>)
    requires
        from <= to <= s@.len(),
    ensures
        r@ == s@.subrange(from as int, to as int),
{
    let mut r: Vec<char> = Vec::new();
    let mut i: usize = from;
    while i < to
        invariant
            from <= i <= to <= s@.len(),
            r@ =~= s@.subrange(from as int, i as int),
        decreases to - i,
    {
        r.push(s[i]);
        i = i + 1;
        assert(r@ =~= s@.subrange(from as int, i as int));
    }
    r
}

pub fn append_chars(dst: &mut Vec<char>, src: &Vec<char>)
    ensures
        final(dst)@ == old(dst)@ + src@,
{
    let mut i: usize = 0;
    while i < src.len()
        invariant
            i <= src@.len(),
            dst@ =~= old(dst)@ + src@.take(i as int),
        decreases src@.len() - i,
    {
        dst.push(src[i]);
        i = i + 1;
        assert(dst@ =~= old(dst)@ + src@.take(i as int));
    }
    assert(old(dst)@ + src@.take(src@.len() as int) =~= old(dst)@ + src@);
}

/// Appends the characters of a string slice (typically a literal).
pub fn append_str(dst: &mut Vec<char>, src: &str)
    ensures
        final(dst)@ == old(dst)@ + src@,
{
    let v = to_chars(src);
    append_chars(dst, &v);
}

pub fn str_eq(a: &str, b: &str) -> (r: bool)
    ensures
        r == (a@ == b@),
{
    let va = to_chars(a);
    let vb = to_chars(b);
    vec_char_eq(&va, &vb)
}

pub fn string_eq_str(a: &String, b: &str) -> (r: bool)
    ensures
        r == (a@ == b@),
{
    str_eq(a.as_str(), b)
}

pub fn chars_eq_str(v: &Vec<char>, s: &str) -> (r: bool)
    ensures
        r == (v@ == s@),
{
    let w = to_chars(s);
    vec_char_eq(v, &w)
}

/// The string with every ' ', '-' and '_' removed.
pub open spec fn spec_strip_seps(s: Seq<char>) -> Seq<char>
    decreases s.len(),
{
    if s.len() == 0 {
        s
    } else if s[0] == ' ' || s[0] == '-' || s[0] == '_' {
        spec_strip_seps(s.drop_first())
    } else {
        seq![s[0]] + spec_strip_seps(s.drop_first())
    }
}

pub fn strip_seps(v: &Vec<char>) -> (r: Vec<char>)
    ensures
        r@ == spec_strip_seps(v@),
{
    let mut r: Vec<char> = Vec::new();
    let mut i: usize = 0;
    proof {
        assert(v@.skip(0) =~= v@);
    }
    while i < v.len()
        invariant
            i <= v@.len(),
            r@ + spec_strip_seps(v@.skip(i as int)) =~= spec_strip_seps(v@),
        decreases v@.len() - i,
    {
        let ghost rem = v@.skip(i as int);
        proof {
            assert(rem[0] == v@[i as int]);
            assert(rem.drop_first() =~= v@.skip(i + 1));
        }
        let c = v[i];
        if !(c == ' ' || c == '-' || c == '_') {
            r.push(c);
        }
        i = i + 1;
        proof {
            assert(r@ + spec_strip_seps(v@.skip(i as int)) =~= spec_strip_seps(v@));
        }
    }
    proof {
        assert(v@.skip(v@.len() as int) =~= Seq::<char>::empty());
        assert(r@ =~= spec_strip_seps(v@));
    }
    r
}

pub fn vec_char_eq(a: &Vec<char>, b: &Vec<char>) -> (r: bool)
    ensures
        r == (a@ == b@),
{
    if a.len() != b.len() {
        return false;
    }
    let mut i: usize = 0;
    while i < a.len()
        invariant
            a@.len() == b@.len(),
            i <= a@.len(),
            forall|m: int| 0 <= m < i ==> a@[m] == b@[m],
        decreases a@.len() - i,
    {
        if a[i] != b[i] {
            return false;
        }
        i = i + 1;
    }
    proof {
        assert(a@ =~= b@);
    }
    true
}

// ---------------------------------------------------------------------------
// Saturating counters
// ---------------------------------------------------------------------------

/// Addition on `usize` counters that stops at the top instead of wrapping.
pub open spec fn spec_sat_add_usize(a: usize, b: usize) -> usize {
    if a + b > usize::MAX {
        usize::MAX
    } else {
        (a + b) as usize
    }
}

/// A `nat` capped to the `usize` range.
pub open spec fn spec_cap_usize(n: nat) -> usize {
    if n > usize::MAX {
        usize::MAX
    } else {
        n as usize
    }
}

pub fn sat_add_usize(a: usize, b: usize) -> (r: usize)
    ensures
        r == spec_sat_add_usize(a, b),
{
    if a > usize::MAX - b {
        usize::MAX
    } else {
        a + b
    }
}

// ---------------------------------------------------------------------------
// Substring search
// ---------------------------------------------------------------------------

/// The pattern `pat` occurs in `s` at position `i`.
pub open spec fn match_at(s: Seq<char>, pat: Seq<char>, i: int) -> bool {
    0 <= i && i + pat.len() <= s.len() && s.subrange(i, i + pat.len() as int) == pat
}

/// The first occurrence of `pat` in `s` at or after position `i`, if any.
pub open spec fn spec_find_from(s: Seq<char>, pat: Seq<char>, i: int) -> Option<int>
    decreases s.len() + 1 - i when 0 <= i
{
    if !(0 <= i && i + pat.len() <= s.len()) {
        None
    } else if match_at(s, pat, i) {
        Some(i)
    } else {
        spec_find_from(s, pat, i + 1)
    }
}

pub open spec fn spec_find(s: Seq<char>, pat: Seq<char>) -> Option<int> {
    spec_find_from(s, pat, 0)
}

pub open spec fn spec_contains(s: Seq<char>, pat: Seq<char>) -> bool {
    spec_find(s, pat) is Some
}

/// A successful search result is a real occurrence at or after the start.
pub proof fn lemma_find_from_some(s: Seq<char>, pat: Seq<char>, start: int, i: int)
    requires
        0 <= start,
        spec_find_from(s, pat, start) == Some(i),
    ensures
        start <= i,
        match_at(s, pat, i),
    decreases s.len() + 1 - start,
{
    if start + pat.len() <= s.len() {
        if match_at(s, pat, start) {
        } else {
            lemma_find_from_some(s, pat, start + 1, i);
        }
    }
}

/// Before a successful search result there is no occurrence.
pub proof fn lemma_find_from_first(s: Seq<char>, pat: Seq<char>, start: int, i: int, q: int)
    requires
        0 <= start,
        spec_find_from(s, pat, start) == Some(i),
        start <= q < i,
    ensures
        !match_at(s, pat, q),
    decreases q - start,
{
    if 0 <= start && start + pat.len() <= s.len() {
        if match_at(s, pat, start) {
        } else {
            if q > start {
                lemma_find_from_first(s, pat, start + 1, i, q);
            }
        }
    }
}

/// A failed search means no occurrence at or after the start.
pub proof fn lemma_find_from_none(s: Seq<char>, pat: Seq<char>, start: int, q: int)
    requires
        0 <= start,
        spec_find_from(s, pat, start) is None,
        start <= q,
    ensures
        !match_at(s, pat, q),
    decreases q - start,
{
    if 0 <= start && start + pat.len() <= s.len() {
        if q > start {
            lemma_find_from_none(s, pat, start + 1, q);
        }
    }
}

pub fn is_match_at(s: &Vec<char>, pat: &Vec<char>, i: usize) -> (r: bool)
    requires
        i + pat@.len() <= s@.len(),
    ensures
        r == match_at(s@, pat@, i as int),
{
    let n: usize = s.len();
    assert(s@.len() <= usize::MAX);
    let mut k: usize = 0;
    while k < pat.len()
        invariant
            i + pat@.len() <= s@.len(),
            s@.len() <= usize::MAX,
            k <= pat@.len(),
            forall|m: int| 0 <= m < k ==> s@[i + m] == pat@[m],
        decreases pat@.len() - k,
    {
        assert(i + k < s@.len());
        if s[i + k] != pat[k] {
            proof {
                assert(s@.subrange(i as int, i + pat@.len() as int) != pat@) by {
                    assert(s@.subrange(i as int, i + pat@.len() as int)[k as int] == s@[i + k]);
                }
            }
            return false;
        }
        k = k + 1;
    }
    proof {
        assert(s@.subrange(i as int, i + pat@.len() as int) =~= pat@);
    }
    true
}

pub fn find_from(s: &Vec<char>, pat: &Vec<char>, start: usize) -> (r: Option<usize>)
    ensures
        match r {
            Some(j) => spec_find_from(s@, pat@, start as int) == Some(j as int) && match_at(
                s@,
                pat@,
                j as int,
            ) && start <= j,
            None => spec_find_from(s@, pat@, start as int) is None,
        },
{
    if pat.len() == 0 {
        if start <= s.len() {
            proof {
                assert(s@.subrange(start as int, start as int) =~= pat@);
            }
            return Some(start);
        } else {
            return None;
        }
    }
    if pat.len() > s.len() || start > s.len() - pat.len() {
        proof {
            if start as int + pat@.len() <= s@.len() {
                assert(false);
            }
        }
        return None;
    }
    let last: usize = s.len() - pat.len();
    let mut i: usize = start;
    while i <= last
        invariant
            1 <= pat@.len() <= s@.len(),
            s@.len() <= usize::MAX,
            last == s@.len() - pat@.len(),
            start <= i <= last + 1,
            spec_find_from(s@, pat@, start as int) == spec_find_from(s@, pat@, i as int),
        decreases last + 1 - i,
    {
        if is_match_at(s, pat, i) {
            return Some(i);
        }
        i = i + 1;
    }
    proof {
        assert(spec_find_from(s@, pat@, i as int) is None);
    }
    None
}

pub fn find_sub(s: &Vec<char>, pat: &Vec<char>) -> (r: Option<usize>)
    ensures
        match r {
            Some(j) => spec_find(s@, pat@) == Some(j as int),
            None => spec_find(s@, pat@) is None,
        },
{
    find_from(s, pat, 0)
}

pub fn contains_sub(s: &Vec<char>, pat: &Vec<char>) -> (r: bool)
    ensures
        r == spec_contains(s@, pat@),
{
    match find_sub(s, pat) {
        Some(_) => true,
        None => false,
    }
}

/// The first occurrence of the character `c` in `s` at or after `i`, if any.
pub open spec fn spec_find_char_from(s: Seq<char>, c: char, i: int) -> Option<int>
    decreases s.len() - i when 0 <= i
{
    if !(0 <= i && i < s.len()) {
        None
    } else if s[i] == c {
        Some(i)
    } else {
        spec_find_char_from(s, c, i + 1)
    }
}

pub fn find_char_from(s: &Vec<char>, c: char, start: usize) -> (r: Option<usize>)
    ensures
        match r {
            Some(j) => spec_find_char_from(s@, c, start as int) == Some(j as int) && start <= j
                && j < s@.len() && s@[j as int] == c,
            None => spec_find_char_from(s@, c, start as int) is None,
        },
{
    let mut i: usize = start;
    while i < s.len()
        invariant
            start <= i,
            i <= s@.len() || i == start,
            spec_find_char_from(s@, c, start as int) == spec_find_char_from(s@, c, i as int),
        decreases s@.len() - i,
    {
        if s[i] == c {
            return Some(i);
        }
        i = i + 1;
    }
    None
}

/// The last occurrence of the character `c` in `s` strictly before `i`.
pub open spec fn spec_rfind_char_before(s: Seq<char>, c: char, i: int) -> Option<int>
    decreases i when i <= s.len()
{
    if i <= 0 || i > s.len() {
        None
    } else if s[i - 1] == c {
        Some(i - 1)
    } else {
        spec_rfind_char_before(s, c, i - 1)
    }
}

pub open spec fn spec_rfind_char(s: Seq<char>, c: char) -> Option<int> {
    spec_rfind_char_before(s, c, s.len() as int)
}

pub fn rfind_char(s: &Vec<char>, c: char) -> (r: Option<usize>)
    ensures
        match r {
            Some(j) => spec_rfind_char(s@, c) == Some(j as int) && j < s@.len() && s@[j as int]
                == c,
            None => spec_rfind_char(s@, c) is None,
        },
{
    let mut i: usize = s.len();
    while i > 0
        invariant
            i <= s@.len(),
            spec_rfind_char(s@, c) == spec_rfind_char_before(s@, c, i as int),
        decreases i,
    {
        if s[i - 1] == c {
            return Some(i - 1);
        }
        i = i - 1;
    }
    None
}

// ---------------------------------------------------------------------------
// String collections
// ---------------------------------------------------------------------------

/// Membership of a string among a sequence of strings.
pub open spec fn seq_contains_str(ss: Seq<Seq<char>>, s: Seq<char>) -> bool {
    exists|i: int| 0 <= i < ss.len() && ss[i] == s
}

pub fn contains_string(v: &Vec<String>, s: &str) -> (r: bool)
    ensures
        r == seq_contains_str(v.deep_view(), s@),
{
    let mut i: usize = 0;
    while i < v.len()
        invariant
            i <= v@.len(),
            forall|m: int| 0 <= m < i ==> v.deep_view()[m] != s@,
        decreases v@.len() - i,
    {
        if string_eq_str(&v[i], s) {
            proof {
                assert(v.deep_view()[i as int] == s@);
            }
            return true;
        }
        i = i + 1;
    }
    false
}

/// The sequence with later repetitions dropped: each string keeps its first
/// occurrence only.
pub open spec fn spec_dedup_strs(ss: Seq<Seq<char>>) -> Seq<Seq<char>>
    decreases ss.len(),
{
    if ss.len() == 0 {
        Seq::<Seq<char>>::empty()
    } else {
        let rest = spec_dedup_strs(ss.drop_last());
        if seq_contains_str(ss.drop_last(), ss.last()) {
            rest
        } else {
            rest.push(ss.last())
        }
    }
}

/// Every string of the input occurs in the deduplicated sequence and vice
/// versa.
pub proof fn lemma_dedup_strs_membership(ss: Seq<Seq<char>>, s: Seq<char>)
    ensures
        seq_contains_str(spec_dedup_strs(ss), s) == seq_contains_str(ss, s),
    decreases ss.len(),
{
    if ss.len() > 0 {
        lemma_dedup_strs_membership(ss.drop_last(), s);
        let rest = spec_dedup_strs(ss.drop_last());
        if seq_contains_str(ss.drop_last(), ss.last()) {
            if seq_contains_str(ss, s) {
                let i = choose|i: int| 0 <= i < ss.len() && ss[i] == s;
                if i < ss.len() - 1 {
                    assert(ss.drop_last()[i] == s);
                } else {
                    let j = choose|j: int|
                        0 <= j < ss.drop_last().len() && ss.drop_last()[j] == ss.last();
                    assert(ss.drop_last()[j] == s);
                }
            }
            if seq_contains_str(ss.drop_last(), s) {
                let i = choose|i: int| 0 <= i < ss.drop_last().len() && ss.drop_last()[i] == s;
                assert(ss[i] == s);
            }
        } else {
            if seq_contains_str(ss, s) {
                let i = choose|i: int| 0 <= i < ss.len() && ss[i] == s;
                if i < ss.len() - 1 {
                    assert(ss.drop_last()[i] == s);
                    assert(seq_contains_str(rest, s));
                    let k = choose|k: int| 0 <= k < rest.len() && rest[k] == s;
                    assert(rest.push(ss.last())[k] == s);
                } else {
                    assert(rest.push(ss.last()).last() == s);
                }
            }
            if seq_contains_str(rest.push(ss.last()), s) {
                let k = choose|k: int|
                    0 <= k < rest.push(ss.last()).len() && rest.push(ss.last())[k] == s;
                if k < rest.len() {
                    assert(rest[k] == s);
                    let i = choose|i: int|
                        0 <= i < ss.drop_last().len() && ss.drop_last()[i] == s;
                    assert(ss[i] == s);
                } else {
                    assert(ss.last() == s);
                    assert(ss[ss.len() - 1] == s);
                }
            }
        }
    }
}

/// Removes duplicates, keeping the first occurrence of each string.
pub fn dedup_strings(v: &Vec<String>) -> (r: Vec<String>)
    ensures
        r.deep_view() == spec_dedup_strs(v.deep_view()),
{
    let ghost all = v.deep_view();
    let mut r: Vec<String> = Vec::new();
    let mut i: usize = 0;
    while i < v.len()
        invariant
            i <= v@.len(),
            r.deep_view() =~= spec_dedup_strs(v.deep_view().take(i as int)),
            forall|s: Seq<char>|
                seq_contains_str(r.deep_view(), s) == seq_contains_str(
                    v.deep_view().take(i as int),
                    s,
                ),
        decreases v@.len() - i,
    {
        let ghost prefix = v.deep_view().take(i as int);
        let ghost prefix1 = v.deep_view().take(i + 1);
        proof {
            assert(prefix1.drop_last() =~= prefix);
            assert(prefix1.last() == v.deep_view()[i as int]);
        }
        let present = contains_string(&r, v[i].as_str());
        if !present {
            let ghost pre = r.deep_view();
            r.push(v[i].clone());
            proof {
                assert(r.deep_view() =~= pre.push(v.deep_view()[i as int]));
            }
        }
        i = i + 1;
        proof {
            assert(r.deep_view() =~= spec_dedup_strs(v.deep_view().take(i as int)));
            assert forall|s: Seq<char>|
                seq_contains_str(r.deep_view(), s) == seq_contains_str(
                    v.deep_view().take(i as int),
                    s,
                ) by {
                lemma_dedup_strs_membership(v.deep_view().take(i as int), s);
            }
        }
    }
    proof {
        assert(v.deep_view().take(v@.len() as int) =~= v.deep_view());
    }
    r
}


// ---------------------------------------------------------------------------
// Lexicographic order and sorted deduplication
// ---------------------------------------------------------------------------

/// Lexicographic order on character sequences by code point — the order in
/// which `str` values compare.
pub open spec fn spec_str_le(a: Seq<char>, b: Seq<char>) -> bool
    decreases a.len(),
{
    if a.len() == 0 {
        true
    } else if b.len() == 0 {
        false
    } else if a[0] != b[0] {
        a[0] < b[0]
    } else {
        spec_str_le(a.drop_first(), b.drop_first())
    }
}

/// Strict lexicographic order.
pub open spec fn spec_str_lt(a: Seq<char>, b: Seq<char>) -> bool {
    spec_str_le(a, b) && a != b
}

/// The order is total.
pub proof fn lemma_str_le_total(a: Seq<char>, b: Seq<char>)
    ensures
        spec_str_le(a, b) || spec_str_le(b, a),
    decreases a.len(),
{
    if a.len() > 0 && b.len() > 0 && a[0] == b[0] {
        lemma_str_le_total(a.drop_first(), b.drop_first());
    }
}

/// The order is antisymmetric.
pub proof fn lemma_str_le_antisym(a: Seq<char>, b: Seq<char>)
    requires
        spec_str_le(a, b),
        spec_str_le(b, a),
    ensures
        a == b,
    decreases a.len(),
{
    if a.len() > 0 && b.len() > 0 && a[0] == b[0] {
        lemma_str_le_antisym(a.drop_first(), b.drop_first());
        assert forall|i: int| 1 <= i < a.len() implies a[i] == b[i] by {
            assert(a.drop_first()[i - 1] == b.drop_first()[i - 1]);
        }
        assert(a =~= b);
    } else if a.len() == 0 {
        assert(b.len() == 0);
        assert(a =~= b);
    }
}

/// The order is transitive.
pub proof fn lemma_str_le_trans(a: Seq<char>, b: Seq<char>, c: Seq<char>)
    requires
        spec_str_le(a, b),
        spec_str_le(b, c),
    ensures
        spec_str_le(a, c),
    decreases a.len(),
{
    if a.len() > 0 && b.len() > 0 && c.len() > 0 && a[0] == b[0] && b[0] == c[0] {
        lemma_str_le_trans(a.drop_first(), b.drop_first(), c.drop_first());
    }
}

/// Each string comes strictly before the next: sorted with no duplicates.
pub open spec fn spec_strictly_sorted(ss: Seq<Seq<char>>) -> bool {
    forall|i: int| 0 <= i < ss.len() - 1 ==> spec_str_lt(#[trigger] ss[i], ss[i + 1])
}

/// In a strictly sorted sequence, every earlier string is strictly below
/// every later one; in particular no string repeats.
pub proof fn lemma_strictly_sorted_distinct(ss: Seq<Seq<char>>, i: int, j: int)
    requires
        spec_strictly_sorted(ss),
        0 <= i < j < ss.len(),
    ensures
        spec_str_lt(ss[i], ss[j]),
    decreases j - i,
{
    if i + 1 < j {
        lemma_strictly_sorted_distinct(ss, i + 1, j);
        lemma_str_le_trans(ss[i], ss[i + 1], ss[j]);
        if ss[i] == ss[j] {
            lemma_str_le_antisym(ss[i + 1], ss[j]);
        }
    }
}

pub fn chars_le(a: &Vec<char>, b: &Vec<char>) -> (r: bool)
    ensures
        r == spec_str_le(a@, b@),
{
    let mut i: usize = 0;
    proof {
        assert(a@.skip(0) =~= a@);
        assert(b@.skip(0) =~= b@);
    }
    loop
        invariant
            i <= a@.len(),
            i <= b@.len(),
            spec_str_le(a@, b@) == spec_str_le(a@.skip(i as int), b@.skip(i as int)),
        decreases a@.len() - i,
    {
        let ghost ra = a@.skip(i as int);
        let ghost rb = b@.skip(i as int);
        proof {
            if i < a@.len() {
                assert(ra[0] == a@[i as int]);
                assert(ra.drop_first() =~= a@.skip(i + 1));
            }
            if i < b@.len() {
                assert(rb[0] == b@[i as int]);
                assert(rb.drop_first() =~= b@.skip(i + 1));
            }
        }
        if i == a.len() {
            proof {
                assert(ra.len() == 0);
            }
            return true;
        }
        if i == b.len() {
            proof {
                assert(rb.len() == 0);
            }
            return false;
        }
        if a[i] != b[i] {
            return a[i] < b[i];
        }
        i = i + 1;
    }
}

pub fn string_le(a: &String, b: &String) -> (r: bool)
    ensures
        r == spec_str_le(a@, b@),
{
    let va = to_chars(a.as_str());
    let vb = to_chars(b.as_str());
    chars_le(&va, &vb)
}

/// Inserts a string into a strictly sorted vector, keeping it strictly
/// sorted; a string already present is not inserted again.
fn sorted_insert(r: &mut Vec<String>, x: String)
    requires
        spec_strictly_sorted(old(r).deep_view()),
    ensures
        spec_strictly_sorted(final(r).deep_view()),
        forall|s: Seq<char>|
            seq_contains_str(final(r).deep_view(), s) == (seq_contains_str(
                old(r).deep_view(),
                s,
            ) || s == x@),
{
    let ghost pre = r.deep_view();
    let ghost xv = x@;
    let mut j: usize = 0;
    while j < r.len() && string_le(&r[j], &x) && !string_eq_str(&r[j], x.as_str())
        invariant
            j <= r@.len(),
            pre == r.deep_view(),
            xv == x@,
            spec_strictly_sorted(pre),
            forall|m: int| 0 <= m < j ==> spec_str_lt(#[trigger] pre[m], xv),
        decreases r@.len() - j,
    {
        proof {
            assert(pre[j as int] == r.deep_view()[j as int]);
        }
        j = j + 1;
    }
    if j < r.len() && string_eq_str(&r[j], x.as_str()) {
        // already present: membership is unchanged
        proof {
            assert(pre[j as int] == xv);
            assert(seq_contains_str(pre, xv));
            assert forall|s: Seq<char>| #![trigger seq_contains_str(r.deep_view(), s)]
                seq_contains_str(r.deep_view(), s) == (seq_contains_str(pre, s) || s
                == xv) by {}
        }
        return;
    }
    proof {
        if j < pre.len() {
            // the scan stopped because pre[j] is not strictly below x
            if spec_str_lt(pre[j as int], xv) {
                assert(false);
            }
            lemma_str_le_total(pre[j as int], xv);
            assert(spec_str_lt(xv, pre[j as int]));
        }
    }
    let ghost insert_at = j as int;
    let ghost prevq = r@;
    let ghost xval = x;
    r.insert(j, x);
    proof {
        prevq.insert_ensures(insert_at, xval);
        assert(r@ == prevq.insert(insert_at, xval));
        assert forall|i: int|
            0 <= i < r.deep_view().len() - 1 implies spec_str_lt(
            #[trigger] r.deep_view()[i],
            r.deep_view()[i + 1],
        ) by {
            if i + 1 < insert_at {
                assert(r@[i] == prevq[i] && r@[i + 1] == prevq[i + 1]);
                assert(r.deep_view()[i] == pre[i]);
                assert(r.deep_view()[i + 1] == pre[i + 1]);
            } else if i + 1 == insert_at {
                assert(r@[i] == prevq[i] && r@[i + 1] == xval);
                assert(r.deep_view()[i] == pre[i]);
                assert(r.deep_view()[i + 1] == xv);
            } else if i == insert_at {
                assert(r@[i] == xval && r@[i + 1] == prevq[i]);
                assert(r.deep_view()[i] == xv);
                assert(r.deep_view()[i + 1] == pre[i]);
            } else {
                assert(r@[i] == prevq[i - 1] && r@[i + 1] == prevq[i]);
                assert(r.deep_view()[i] == pre[i - 1]);
                assert(r.deep_view()[i + 1] == pre[i]);
            }
        }
        assert forall|s: Seq<char>| #![trigger seq_contains_str(r.deep_view(), s)]
            seq_contains_str(r.deep_view(), s) == (seq_contains_str(pre, s) || s == xv) by {
            if seq_contains_str(r.deep_view(), s) {
                let m = choose|m: int| 0 <= m < r.deep_view().len() && r.deep_view()[m] == s;
                if m < insert_at {
                    assert(r@[m] == prevq[m]);
                    assert(pre[m] == s);
                } else if m == insert_at {
                    assert(r@[m] == xval);
                    assert(s == xv);
                } else {
                    assert(r@[m] == prevq[m - 1]);
                    assert(pre[m - 1] == s);
                }
            }
            if seq_contains_str(pre, s) {
                let m = choose|m: int| 0 <= m < pre.len() && pre[m] == s;
                if m < insert_at {
                    assert(r@[m] == prevq[m]);
                    assert(r.deep_view()[m] == s);
                } else {
                    assert(r@[m + 1] == prevq[m]);
                    assert(r.deep_view()[m + 1] == s);
                }
            }
            if s == xv {
                assert(r@[insert_at] == xval);
                assert(r.deep_view()[insert_at] == s);
            }
        }
    }
}

/// The strings of the input, sorted lexicographically with duplicates
/// removed.
pub fn sorted_unique(v: &Vec<String>) -> (r: Vec<String>)
    ensures
        spec_strictly_sorted(r.deep_view()),
        forall|s: Seq<char>|
            seq_contains_str(r.deep_view(), s) == seq_contains_str(v.deep_view(), s),
{
    let ghost vv = v.deep_view();
    let mut r: Vec<String> = Vec::new();
    let mut i: usize = 0;
    while i < v.len()
        invariant
            i <= v@.len(),
            vv == v.deep_view(),
            spec_strictly_sorted(r.deep_view()),
            forall|s: Seq<char>|
                seq_contains_str(r.deep_view(), s) == seq_contains_str(
                    vv.take(i as int),
                    s,
                ),
        decreases v@.len() - i,
    {
        let ghost prefix1 = vv.take(i + 1);
        proof {
            assert(prefix1.drop_last() =~= vv.take(i as int));
            assert(prefix1.last() == vv[i as int]);
        }
        sorted_insert(&mut r, v[i].clone());
        i = i + 1;
        proof {
            assert forall|s: Seq<char>|
                seq_contains_str(r.deep_view(), s) == seq_contains_str(
                vv.take(i as int),
                s,
            ) by {
                if seq_contains_str(vv.take(i as int), s) {
                    let m = choose|m: int|
                        0 <= m < i && #[trigger] vv.take(i as int)[m] == s;
                    if m < i - 1 {
                        assert(vv.take((i - 1) as int)[m] == s);
                    } else {
                        assert(s == vv[(i - 1) as int]);
                    }
                }
                if seq_contains_str(vv.take((i - 1) as int), s) {
                    let m = choose|m: int|
                        0 <= m < i - 1 && #[trigger] vv.take((i - 1) as int)[m] == s;
                    assert(vv.take(i as int)[m] == s);
                }
                if s == vv[(i - 1) as int] {
                    assert(vv.take(i as int)[i - 1] == s);
                }
            }
        }
    }
    proof {
        assert(vv.take(vv.len() as int) =~= vv);
    }
    r
}

// ---------------------------------------------------------------------------
// Trimming
// ---------------------------------------------------------------------------

pub open spec fn spec_trim_start(s: Seq<char>) -> Seq<char>
    decreases s.len(),
{
    if s.len() == 0 {
        s
    } else if spec_is_whitespace(s[0]) {
        spec_trim_start(s.drop_first())
    } else {
        s
    }
}

pub open spec fn spec_trim_end(s: Seq<char>) -> Seq<char>
    decreases s.len(),
{
    if s.len() == 0 {
        s
    } else if spec_is_whitespace(s[s.len() - 1]) {
        spec_trim_end(s.drop_last())
    } else {
        s
    }
}

/// What `str::trim` does: drop leading and trailing whitespace.
pub open spec fn spec_trim(s: Seq<char>) -> Seq<char> {
    spec_trim_end(spec_trim_start(s))
}

proof fn lemma_trim_start_is_skip(s: Seq<char>, i: int)
    requires
        0 <= i <= s.len(),
        forall|m: int| 0 <= m < i ==> spec_is_whitespace(s[m]),
        i < s.len() ==> !spec_is_whitespace(s[i]),
    ensures
        spec_trim_start(s) == s.skip(i),
    decreases i,
{
    if i == 0 {
        assert(s.skip(0) =~= s);
    } else {
        lemma_trim_start_is_skip(s.drop_first(), i - 1);
        assert(s.drop_first().skip(i - 1) =~= s.skip(i));
    }
}

proof fn lemma_trim_end_is_take(s: Seq<char>, j: int)
    requires
        0 <= j <= s.len(),
        forall|m: int| j <= m < s.len() ==> spec_is_whitespace(s[m]),
        j > 0 ==> !spec_is_whitespace(s[j - 1]),
    ensures
        spec_trim_end(s) == s.take(j),
    decreases s.len() - j,
{
    if j == s.len() {
        assert(s.take(j) =~= s);
    } else {
        lemma_trim_end_is_take(s.drop_last(), j);
        assert(s.drop_last().take(j) =~= s.take(j));
    }
}

pub fn trim(s: &Vec<char>) -> (r: Vec<char>)
    ensures
        r@ == spec_trim(s@),
{
    let mut i: usize = 0;
    while i < s.len() && is_whitespace_char(s[i])
        invariant
            i <= s@.len(),
            forall|m: int| 0 <= m < i ==> spec_is_whitespace(s@[m]),
        decreases s@.len() - i,
    {
        i = i + 1;
    }
    proof {
        lemma_trim_start_is_skip(s@, i as int);
    }
    if i == s.len() {
        proof {
            assert(s@.skip(i as int) =~= Seq::<char>::empty());
        }
        let r: Vec<char> = Vec::new();
        return r;
    }
    let mut j: usize = s.len();
    while j > i + 1 && is_whitespace_char(s[j - 1])
        invariant
            i < j <= s@.len(),
            forall|m: int| j <= m < s@.len() ==> spec_is_whitespace(s@[m]),
        decreases j,
    {
        j = j - 1;
    }
    // s[i] is not whitespace, so the character before position j (relative to
    // the suffix starting at i) is not whitespace once j has shrunk to i + 1.
    proof {
        let suffix = s@.skip(i as int);
        assert forall|m: int| j - i <= m < suffix.len() implies spec_is_whitespace(
            suffix[m],
        ) by {
            assert(suffix[m] == s@[m + i]);
        }
        assert(suffix[j - i - 1] == s@[j - 1]);
        lemma_trim_end_is_take(suffix, j - i);
        assert(suffix.take(j - i) =~= s@.subrange(i as int, j as int));
    }
    subvec(s, i, j)
}

// ---------------------------------------------------------------------------
// Decimal rendering
// ---------------------------------------------------------------------------

pub open spec fn spec_digit_char(d: nat) -> char {
    if d == 0 {
        '0'
    } else if d == 1 {
        '1'
    } else if d == 2 {
        '2'
    } else if d == 3 {
        '3'
    } else if d == 4 {
        '4'
    } else if d == 5 {
        '5'
    } else if d == 6 {
        '6'
    } else if d == 7 {
        '7'
    } else if d == 8 {
        '8'
    } else {
        '9'
    }
}

/// The decimal digits of `n`, most significant first.
pub open spec fn spec_digits(n: nat) -> Seq<char>
    decreases n,
{
    if n < 10 {
        seq![spec_digit_char(n)]
    } else {
        spec_digits(n / 10).push(spec_digit_char(n % 10))
    }
}

fn digit_char(d: u64) -> (c: char)
    requires
        d < 10,
    ensures
        c == spec_digit_char(d as nat),
{
    if d == 0 {
        '0'
    } else if d == 1 {
        '1'
    } else if d == 2 {
        '2'
    } else if d == 3 {
        '3'
    } else if d == 4 {
        '4'
    } else if d == 5 {
        '5'
    } else if d == 6 {
        '6'
    } else if d == 7 {
        '7'
    } else if d == 8 {
        '8'
    } else {
        '9'
    }
}

pub fn push_u64_digits(n: u64, out: &mut Vec<char>)
    ensures
        final(out)@ == old(out)@ + spec_digits(n as nat),
    decreases n,
{
    if n < 10 {
        out.push(digit_char(n));
        assert(old(out)@ + spec_digits(n as nat) =~= out@);
    } else {
        push_u64_digits(n / 10, out);
        out.push(digit_char(n % 10));
        assert(old(out)@ + spec_digits(n as nat) =~= out@);
    }
}

pub fn u64_digits(n: u64) -> (r: Vec<char>)
    ensures
        r@ == spec_digits(n as nat),
{
    let mut r: Vec<char> = Vec::new();
    push_u64_digits(n, &mut r);
    proof {
        assert(Seq::<char>::empty() + spec_digits(n as nat) =~= spec_digits(n as nat));
    }
    r
}

proof fn lemma_digit_char_injective(a: nat, b: nat)
    requires
        a < 10,
        b < 10,
        spec_digit_char(a) == spec_digit_char(b),
    ensures
        a == b,
{
}

/// Distinct numbers render to distinct digit strings.
pub proof fn lemma_digits_injective(a: nat, b: nat)
    requires
        spec_digits(a) == spec_digits(b),
    ensures
        a == b,
    decreases a + b,
{
    if a < 10 && b < 10 {
        assert(spec_digits(a)[0] == spec_digit_char(a));
        assert(spec_digits(b)[0] == spec_digit_char(b));
        lemma_digit_char_injective(a, b);
    } else if a < 10 {
        // lengths differ: spec_digits(b) has at least 2 characters
        lemma_digits_len(a);
        lemma_digits_len(b);
    } else if b < 10 {
        lemma_digits_len(a);
        lemma_digits_len(b);
    } else {
        assert(spec_digits(a).last() == spec_digit_char(a % 10));
        assert(spec_digits(b).last() == spec_digit_char(b % 10));
        lemma_digit_char_injective(a % 10, b % 10);
        assert(spec_digits(a).drop_last() =~= spec_digits(a / 10));
        assert(spec_digits(b).drop_last() =~= spec_digits(b / 10));
        lemma_digits_injective(a / 10, b / 10);
    }
}

/// A counter rendered with at least three digits, as in "FR-007".
pub open spec fn spec_pad3(n: nat) -> Seq<char> {
    if n < 10 {
        seq!['0', '0'] + spec_digits(n)
    } else if n < 100 {
        seq!['0'] + spec_digits(n)
    } else {
        spec_digits(n)
    }
}

pub fn pad3_digits(n: u64) -> (r: Vec<char>)
    ensures
        r@ == spec_pad3(n as nat),
{
    let mut r: Vec<char> = Vec::new();
    if n < 10 {
        r.push('0');
        r.push('0');
    } else if n < 100 {
        r.push('0');
    }
    push_u64_digits(n, &mut r);
    proof {
        if n < 10 {
            assert(seq!['0', '0'] + spec_digits(n as nat) =~= r@);
        } else if n < 100 {
            assert(seq!['0'] + spec_digits(n as nat) =~= r@);
        } else {
            assert(Seq::<char>::empty() + spec_digits(n as nat) =~= r@);
        }
    }
    r
}

proof fn lemma_digits_len(n: nat)
    ensures
        spec_digits(n).len() >= 1,
        n < 10 <==> spec_digits(n).len() == 1,
        n >= 10 && n < 100 <==> spec_digits(n).len() == 2,
    decreases n,
{
    if n >= 10 {
        lemma_digits_len(n / 10);
    }
}

proof fn lemma_digits_first_nonzero(n: nat)
    requires
        n >= 1,
    ensures
        spec_digits(n)[0] != '0',
    decreases n,
{
    if n >= 10 {
        lemma_digits_first_nonzero(n / 10);
        assert(spec_digits(n)[0] == spec_digits(n / 10)[0]);
    }
}

/// Distinct counters render to distinct padded strings.
pub proof fn lemma_pad3_injective(a: nat, b: nat)
    requires
        a >= 1,
        b >= 1,
        spec_pad3(a) == spec_pad3(b),
    ensures
        a == b,
{
    lemma_digits_len(a);
    lemma_digits_len(b);
    lemma_digits_first_nonzero(a);
    lemma_digits_first_nonzero(b);
    if a < 10 && b < 10 {
        assert(spec_pad3(a)[2] == spec_digits(a)[0]);
        assert(spec_pad3(b)[2] == spec_digits(b)[0]);
        assert(spec_digits(a) =~= spec_digits(b));
        lemma_digits_injective(a, b);
    } else if a < 100 && b < 100 && a >= 10 && b >= 10 {
        assert(spec_pad3(a)[1] == spec_digits(a)[0]);
        assert(spec_pad3(a)[2] == spec_digits(a)[1]);
        assert(spec_digits(a) =~= spec_digits(b));
        lemma_digits_injective(a, b);
    } else if a >= 100 && b >= 100 {
        lemma_digits_injective(a, b);
    } else {
        // mixed ranges: the leading character or the length distinguishes them
        assert(spec_pad3(a).len() == if a < 100 {
            3
        } else {
            spec_digits(a).len()
        });
        assert(spec_pad3(b).len() == if b < 100 {
            3
        } else {
            spec_digits(b).len()
        });
        if a < 10 {
            if b >= 10 && b < 100 {
                assert(spec_pad3(a)[1] == '0');
                assert(spec_pad3(b)[1] == spec_digits(b)[0]);
            } else {
                assert(spec_pad3(b)[0] == spec_digits(b)[0]);
                assert(spec_pad3(a)[0] == '0');
                assert(spec_digits(b).len() == 3 ==> b >= 100);
            }
        } else if a < 100 {
            if b < 10 {
                assert(spec_pad3(b)[1] == '0');
                assert(spec_pad3(a)[1] == spec_digits(a)[0]);
            } else {
                assert(spec_pad3(a)[0] == '0');
                assert(spec_pad3(b)[0] == spec_digits(b)[0]);
            }
        } else {
            if b < 10 {
                assert(spec_pad3(a)[0] == spec_digits(a)[0]);
                assert(spec_pad3(b)[0] == '0');
            } else {
                assert(spec_pad3(a)[0] == spec_digits(a)[0]);
                assert(spec_pad3(b)[0] == '0');
            }
        }
    }
}

} // verus!
