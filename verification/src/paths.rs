//! Helpers for filesystem paths given as sequences of components.
//!
//! Throughout the crate a path is a `Vec<String>` holding its components in
//! order, so that joining, taking a parent and computing a path relative to a
//! scan root are plain operations on sequences.

use vstd::prelude::*;

verus! {

/// Copies a vector of strings element by element.
pub fn copy_names(v: &Vec<String>) -> (r: Vec<String>)
    ensures
        r.deep_view() == v.deep_view(),
{
    let mut r: Vec<String> = Vec::new();
    for i in 0..v.len()
        invariant
            r@.len() == i,
            forall|j: int| 0 <= j < i ==> r@[j]@ == v@[j]@,
    {
        r.push(v[i].clone());
    }
    proof {
        assert(r.deep_view() =~= v.deep_view());
    }
    r
}

/// Copies the components of `v` from index `from` (inclusive) up to `to`
/// (exclusive).
pub fn copy_range(v: &Vec<String>, from: usize, to: usize) -> (r: Vec<String>)
    requires
        from <= to <= v.len(),
    ensures
        r.deep_view() == v.deep_view().subrange(from as int, to as int),
{
    let mut r: Vec<String> = Vec::new();
    for i in from..to
        invariant
            from <= i <= to <= v@.len(),
            r@.len() == i - from,
            forall|j: int| 0 <= j < i - from ==> r@[j]@ == v@[from + j]@,
    {
        r.push(v[i].clone());
    }
    proof {
        assert(r.deep_view() =~= v.deep_view().subrange(from as int, to as int));
    }
    r
}

/// True exactly when `pre` is a prefix of `v`, component by component.
pub fn is_component_prefix(pre: &Vec<String>, v: &Vec<String>) -> (r: bool)
    ensures
        r == (pre.deep_view().len() <= v.deep_view().len() && v.deep_view().take(
            pre.deep_view().len() as int,
        ) == pre.deep_view()),
{
    if pre.len() > v.len() {
        return false;
    }
    for i in 0..pre.len()
        invariant
            pre@.len() <= v@.len(),
            forall|j: int| 0 <= j < i ==> v@[j]@ == pre@[j]@,
    {
        if !(v[i] == pre[i]) {
            proof {
                assert(v.deep_view().take(pre.deep_view().len() as int)[i as int] != pre
                    .deep_view()[i as int]);
            }
            return false;
        }
    }
    proof {
        assert(v.deep_view().take(pre.deep_view().len() as int) =~= pre.deep_view());
    }
    true
}

/// True exactly when some element of `v` equals `name`.
pub fn contains_name(v: &Vec<String>, name: &String) -> (r: bool)
    ensures
        r == v.deep_view().contains(name@),
{
    for i in 0..v.len()
        invariant
            forall|j: int| 0 <= j < i ==> v@[j]@ != name@,
    {
        if v[i] == *name {
            proof {
                assert(v.deep_view()[i as int] == name@);
            }
            return true;
        }
    }
    proof {
        assert forall|j: int| 0 <= j < v.deep_view().len() implies v.deep_view()[j] != name@ by {
            assert(v@[j]@ != name@);
        }
    }
    false
}

} // verus!
