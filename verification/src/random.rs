//! The one source of randomness the library uses, behind a trusted
//! wrapper; nothing is assumed of a sample beyond its range.

use vstd::prelude::*;

verus! {

/// Relies on rand::random_range over `0..=bound`: the sampled value lies
/// within the given closed range.
#[verifier::external_body]
pub(crate) fn random_below_eq(bound: usize) -> (r: usize)
    ensures
        r <= bound,
{
    rand::random_range(0..=bound)
}

} // verus!
