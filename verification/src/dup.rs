//! Value duplication with a proved model: `duplicate` returns a value with
//! the same mathematical view, which is what the engine's contracts speak of.

use vstd::prelude::*;

verus! {

/// A type that can be copied while provably keeping its model.
pub trait Duplicate: DeepView + Sized {
    fn duplicate(&self) -> (r: Self)
        ensures
            r.deep_view() == self.deep_view(),
    ;
}

impl Duplicate for String {
    fn duplicate(&self) -> (r: Self)
        ensures
            r.deep_view() == self.deep_view(),
    {
        self.clone()
    }
}

/// Duplicates every element of a vector, keeping the model.
pub fn dup_vec<T: Duplicate>(v: &Vec<T>) -> (r: Vec<T>)
    ensures
        r.deep_view() == v.deep_view(),
{
    let mut r: Vec<T> = Vec::new();
    let mut i: usize = 0;
    while i < v.len()
        invariant
            i <= v@.len(),
            r@.len() == i,
            forall|k: int| 0 <= k < i ==> r.deep_view()[k] == v.deep_view()[k],
        decreases v@.len() - i,
    {
        let elem = v[i].duplicate();
        let ghost ev = elem.deep_view();
        let ghost pre = r.deep_view();
        proof {
            assert(ev == v.deep_view()[i as int]);
        }
        r.push(elem);
        i = i + 1;
        proof {
            assert forall|k: int| 0 <= k < i implies r.deep_view()[k] == v.deep_view()[k] by {
                if k < i - 1 {
                    assert(r.deep_view()[k] == pre[k]);
                } else {
                    assert(r.deep_view()[k] == ev);
                }
            }
        }
    }
    proof {
        assert(r.deep_view() =~= v.deep_view());
    }
    r
}

/// Pushes a copy of a string, with the effect stated over the model.
pub fn push_string(dst: &mut Vec<String>, s: &String)
    ensures
        final(dst)@.len() == old(dst)@.len() + 1,
        final(dst).deep_view() == old(dst).deep_view().push(s@),
{
    let ghost pre = dst.deep_view();
    dst.push(s.clone());
    proof {
        assert(dst.deep_view() =~= pre.push(s@));
    }
}

/// Copies a vector of plain copyable values.
pub fn dup_vec_copy<T: Copy + DeepView>(v: &Vec<T>) -> (r: Vec<T>)
    ensures
        r@ == v@,
{
    let mut r: Vec<T> = Vec::new();
    let mut i: usize = 0;
    while i < v.len()
        invariant
            i <= v@.len(),
            r@ =~= v@.take(i as int),
        decreases v@.len() - i,
    {
        r.push(v[i]);
        i = i + 1;
        proof {
            assert(r@ =~= v@.take(i as int));
        }
    }
    proof {
        assert(v@.take(v@.len() as int) =~= v@);
    }
    r
}

/// Duplicates an optional value, keeping the model.
pub fn dup_opt<T: Duplicate>(v: &Option<T>) -> (r: Option<T>)
    ensures
        r.deep_view() == v.deep_view(),
{
    match v {
        Some(x) => Some(x.duplicate()),
        None => None,
    }
}

} // verus!
