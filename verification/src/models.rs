//! The resource record types.
//!
//! One module per resource kind.  Every record carries its canonical `url`
//! as identity, implements [`crate::store::Resource`] — which fixes the JSON
//! shape it decodes from — and offers a `description` rendering with an
//! exact contract.  This module holds the view-preserving copy helpers the
//! record types share.

pub mod films;
pub mod people;
pub mod planets;
pub mod species;
pub mod starships;
pub mod vehicles;

use vstd::prelude::*;

verus! {

/// A view-preserving copy of a list of strings.
pub fn clone_strings(v: &Vec<String>) -> (r: Vec<String>)
    ensures
        r.deep_view() == v.deep_view(),
{
    let n = v.len();
    let mut out: Vec<String> = Vec::new();
    let mut i: usize = 0;
    while i < n
        invariant
            n == v@.len(),
            i <= n,
            out@.len() == i,
            forall|j: int| 0 <= j < i ==> #[trigger] out@[j]@ == v@[j]@,
        decreases n - i,
    {
        out.push(v[i].clone());
        i = i + 1;
    }
    proof {
        assert(out.deep_view() =~= v.deep_view());
    }
    out
}

/// A copy of an optional string.
pub fn clone_opt_string(v: &Option<String>) -> (r: Option<String>)
    ensures
        r == *v,
{
    match v {
        None => None,
        Some(s) => Some(s.clone()),
    }
}

} // verus!
