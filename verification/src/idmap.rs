//! Association list from old identifiers to renumbered ones. Insertion
//! order is kept and a later insertion for the same key wins, as the merge's
//! global mapping requires.

use vstd::prelude::*;
use vstd::string::*;

use crate::textutil::{chars_to_string, lemma_pad3_injective, pad3_digits, spec_pad3,
    string_eq_str};

verus! {

/// The value of the last pair whose key matches, if any.
pub open spec fn spec_lookup(pairs: Seq<(Seq<char>, Seq<char>)>, key: Seq<char>) -> Option<
    Seq<char>,
>
    decreases pairs.len(),
{
    if pairs.len() == 0 {
        Option::None
    } else if pairs.last().0 == key {
        Option::Some(pairs.last().1)
    } else {
        spec_lookup(pairs.drop_last(), key)
    }
}

/// A found value is one of the stored values.
pub proof fn lemma_lookup_in_values(pairs: Seq<(Seq<char>, Seq<char>)>, key: Seq<char>)
    ensures
        match spec_lookup(pairs, key) {
            Option::Some(v) => exists|j: int| 0 <= j < pairs.len() && pairs[j].1 == v,
            Option::None => true,
        },
    decreases pairs.len(),
{
    if pairs.len() > 0 {
        if pairs.last().0 == key {
            assert(pairs[pairs.len() - 1].1 == pairs.last().1);
        } else {
            lemma_lookup_in_values(pairs.drop_last(), key);
            match spec_lookup(pairs.drop_last(), key) {
                Option::Some(v) => {
                    let j = choose|j: int|
                        0 <= j < pairs.drop_last().len() && pairs.drop_last()[j].1 == v;
                    assert(pairs[j].1 == v);
                },
                Option::None => {},
            }
        }
    }
}

/// Mapping from old to new identifiers.
pub struct IdMap {
    pub pairs: Vec<(String, String)>,
}

impl IdMap {
    pub fn new() -> (r: Self)
        ensures
            r.pairs@.len() == 0,
            r.pairs.deep_view() == Seq::<(Seq<char>, Seq<char>)>::empty(),
    {
        let r = IdMap { pairs: Vec::new() };
        proof {
            assert(r.pairs.deep_view() =~= Seq::<(Seq<char>, Seq<char>)>::empty());
        }
        r
    }

    pub fn insert(&mut self, key: String, value: String)
        ensures
            final(self).pairs@.len() == old(self).pairs@.len() + 1,
            final(self).pairs.deep_view() == old(self).pairs.deep_view().push((key@, value@)),
    {
        let ghost pre = self.pairs.deep_view();
        self.pairs.push((key, value));
        proof {
            assert(self.pairs.deep_view() =~= pre.push(
                (self.pairs@.last().0@, self.pairs@.last().1@),
            ));
        }
    }

    /// Looks the key up; the last inserted pair for the key wins.
    pub fn get(&self, key: &str) -> (r: Option<String>)
        ensures
            match r {
                Some(v) => spec_lookup(self.pairs.deep_view(), key@) == Some(v@),
                None => spec_lookup(self.pairs.deep_view(), key@) is None,
            },
    {
        let ghost pv = self.pairs.deep_view();
        let mut i: usize = self.pairs.len();
        proof {
            assert(pv.take(pv.len() as int) =~= pv);
        }
        while i > 0
            invariant
                i <= self.pairs@.len(),
                pv == self.pairs.deep_view(),
                spec_lookup(pv, key@) == spec_lookup(pv.take(i as int), key@),
            decreases i,
        {
            let ghost prefix = pv.take(i as int);
            proof {
                assert(prefix.last() == pv[i - 1]);
                assert(prefix.drop_last() =~= pv.take(i - 1));
            }
            if string_eq_str(&self.pairs[i - 1].0, key) {
                proof {
                    assert(pv[i - 1].0 == key@);
                }
                return Some(self.pairs[i - 1].1.clone());
            }
            proof {
                assert(pv[i - 1].0 != key@);
            }
            i = i - 1;
        }
        proof {
            assert(pv.take(0) =~= Seq::<(Seq<char>, Seq<char>)>::empty());
        }
        None
    }
}

// ---------------------------------------------------------------------------
// Renumbered identifiers
// ---------------------------------------------------------------------------

/// The n-th requirement identifier: "FR-" and at least three digits.
pub open spec fn spec_fr_id(n: nat) -> Seq<char> {
    "FR-"@ + spec_pad3(n)
}

/// The n-th scenario identifier: "US-" and at least three digits.
pub open spec fn spec_us_id(n: nat) -> Seq<char> {
    "US-"@ + spec_pad3(n)
}

/// The n-th success-criterion identifier: "SC-" and at least three digits.
pub open spec fn spec_sc_id(n: nat) -> Seq<char> {
    "SC-"@ + spec_pad3(n)
}

fn id_with_prefix(prefix: &str, n: u64) -> (r: String)
    ensures
        r@ == prefix@ + spec_pad3(n as nat),
{
    let mut v = crate::textutil::to_chars(prefix);
    let mut digits = pad3_digits(n);
    v.append(&mut digits);
    let s = chars_to_string(&v);
    proof {
        assert(s@ =~= prefix@ + spec_pad3(n as nat));
    }
    s
}

pub fn fr_id_string(n: u64) -> (r: String)
    ensures
        r@ == spec_fr_id(n as nat),
{
    id_with_prefix("FR-", n)
}

pub fn us_id_string(n: u64) -> (r: String)
    ensures
        r@ == spec_us_id(n as nat),
{
    id_with_prefix("US-", n)
}

pub fn sc_id_string(n: u64) -> (r: String)
    ensures
        r@ == spec_sc_id(n as nat),
{
    id_with_prefix("SC-", n)
}

proof fn lemma_prefixed_injective(p: Seq<char>, a: nat, b: nat)
    requires
        a >= 1,
        b >= 1,
        p + spec_pad3(a) == p + spec_pad3(b),
    ensures
        a == b,
{
    assert(spec_pad3(a) =~= (p + spec_pad3(a)).skip(p.len() as int));
    assert(spec_pad3(b) =~= (p + spec_pad3(b)).skip(p.len() as int));
    lemma_pad3_injective(a, b);
}

/// Distinct counters give distinct requirement identifiers.
pub proof fn lemma_fr_id_injective(a: nat, b: nat)
    requires
        a >= 1,
        b >= 1,
        a != b,
    ensures
        spec_fr_id(a) != spec_fr_id(b),
{
    if spec_fr_id(a) == spec_fr_id(b) {
        lemma_prefixed_injective("FR-"@, a, b);
    }
}

/// Distinct counters give distinct scenario identifiers.
pub proof fn lemma_us_id_injective(a: nat, b: nat)
    requires
        a >= 1,
        b >= 1,
        a != b,
    ensures
        spec_us_id(a) != spec_us_id(b),
{
    if spec_us_id(a) == spec_us_id(b) {
        lemma_prefixed_injective("US-"@, a, b);
    }
}

} // verus!
