//! Word lists used by the requirement quality rules: ambiguous words that a
//! well-formed statement avoids, and the normative keywords it should carry.

use vstd::prelude::*;
use vstd::string::*;

verus! {

/// The ambiguous words a requirement statement must not contain.
pub open spec fn spec_ambiguous_words() -> Seq<Seq<char>> {
    seq![
        "environ"@,
        "quelques"@,
        "peut-etre"@,
        "certains"@,
        "parfois"@,
        "souvent"@,
        "approximativement"@,
        "approximately"@,
        "some"@,
        "maybe"@,
        "sometimes"@,
        "usually"@,
        "often"@,
        "few"@,
        "several"@,
        "many"@,
        "etc"@,
        "adequate"@,
        "as appropriate"@,
    ]
}

/// The ambiguous words, as runtime strings.
pub fn ambiguous_words() -> (r: Vec<String>)
    ensures
        r.deep_view() == spec_ambiguous_words(),
{
    let mut r: Vec<String> = Vec::new();
    r.push(String::from_str("environ"));
    r.push(String::from_str("quelques"));
    r.push(String::from_str("peut-etre"));
    r.push(String::from_str("certains"));
    r.push(String::from_str("parfois"));
    r.push(String::from_str("souvent"));
    r.push(String::from_str("approximativement"));
    r.push(String::from_str("approximately"));
    r.push(String::from_str("some"));
    r.push(String::from_str("maybe"));
    r.push(String::from_str("sometimes"));
    r.push(String::from_str("usually"));
    r.push(String::from_str("often"));
    r.push(String::from_str("few"));
    r.push(String::from_str("several"));
    r.push(String::from_str("many"));
    r.push(String::from_str("etc"));
    r.push(String::from_str("adequate"));
    r.push(String::from_str("as appropriate"));
    proof {
        assert(r.deep_view() =~= spec_ambiguous_words());
    }
    r
}

/// The normative keywords expected in a requirement statement.
pub open spec fn spec_normative_keywords() -> Seq<Seq<char>> {
    seq![
        "MUST"@,
        "SHALL"@,
        "SHOULD"@,
        "COULD"@,
        "WILL"@,
        "DOIT"@,
        "DEVRAIT"@,
        "POURRAIT"@,
    ]
}

/// The normative keywords, as runtime strings.
pub fn normative_keywords() -> (r: Vec<String>)
    ensures
        r.deep_view() == spec_normative_keywords(),
{
    let mut r: Vec<String> = Vec::new();
    r.push(String::from_str("MUST"));
    r.push(String::from_str("SHALL"));
    r.push(String::from_str("SHOULD"));
    r.push(String::from_str("COULD"));
    r.push(String::from_str("WILL"));
    r.push(String::from_str("DOIT"));
    r.push(String::from_str("DEVRAIT"));
    r.push(String::from_str("POURRAIT"));
    proof {
        assert(r.deep_view() =~= spec_normative_keywords());
    }
    r
}

} // verus!
