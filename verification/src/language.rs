//! Language detection over raw input text, by counting telltale phrases.

use vstd::prelude::*;

use crate::story::Language;
use crate::textutil::{fold_lower, contains_sub, spec_fold_lower, spec_contains, to_chars};

verus! {

pub open spec fn b2n(b: bool) -> nat {
    if b {
        1
    } else {
        0
    }
}

/// How many of the French telltale phrases occur in the (lower-cased) text.
pub open spec fn spec_french_hits(l: Seq<char>) -> nat {
    b2n(spec_contains(l, "en tant que"@)) + b2n(spec_contains(l, "je veux"@)) + b2n(
        spec_contains(l, "afin de"@),
    ) + b2n(spec_contains(l, "critères"@)) + b2n(spec_contains(l, "scénario"@))
}

/// How many of the English telltale phrases occur in the (lower-cased) text.
pub open spec fn spec_english_hits(l: Seq<char>) -> nat {
    b2n(spec_contains(l, "as a"@)) + b2n(spec_contains(l, "i want"@)) + b2n(
        spec_contains(l, "so that"@),
    ) + b2n(spec_contains(l, "criteria"@)) + b2n(spec_contains(l, "scenario"@))
}

/// The detected language: French wins ties.
pub open spec fn spec_detect_language(content: Seq<char>) -> Language {
    let l = spec_fold_lower(content);
    if spec_french_hits(l) >= spec_english_hits(l) {
        Language::French
    } else {
        Language::English
    }
}

/// Detects the language of raw input text by counting telltale phrases of
/// each language; a tie (including no hit at all) is French.
pub fn detect_language(content: &str) -> (r: Language)
    ensures
        r == spec_detect_language(content@),
{
    let l = fold_lower(&to_chars(content));
    let mut fr: usize = 0;
    let mut en: usize = 0;
    if contains_sub(&l, &to_chars("en tant que")) {
        fr = fr + 1;
    }
    if contains_sub(&l, &to_chars("je veux")) {
        fr = fr + 1;
    }
    if contains_sub(&l, &to_chars("afin de")) {
        fr = fr + 1;
    }
    if contains_sub(&l, &to_chars("critères")) {
        fr = fr + 1;
    }
    if contains_sub(&l, &to_chars("scénario")) {
        fr = fr + 1;
    }
    if contains_sub(&l, &to_chars("as a")) {
        en = en + 1;
    }
    if contains_sub(&l, &to_chars("i want")) {
        en = en + 1;
    }
    if contains_sub(&l, &to_chars("so that")) {
        en = en + 1;
    }
    if contains_sub(&l, &to_chars("criteria")) {
        en = en + 1;
    }
    if contains_sub(&l, &to_chars("scenario")) {
        en = en + 1;
    }
    if fr >= en {
        Language::French
    } else {
        Language::English
    }
}

} // verus!
