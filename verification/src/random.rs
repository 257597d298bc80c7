//! The two random draws that name derivation needs, taken from `rand`.
//!
//! Nothing here is proved: each contract states what the `rand` crate
//! documents of the call, and the rest of the library relies on it.

use rand::distributions::{IndependentSample, Range};
use vstd::prelude::*;

verus! {

/// `rand::random::<bool>()`: a coin flip from the thread's generator.
///
/// Either value may come back, so nothing is claimed of it. Like every use of
/// the thread's generator, the call fails if the system has no entropy to
/// seed it with.
#[verifier::external_body]
pub(crate) fn random_flag() -> (flag: bool) {
    rand::random()
}

/// `Range::new(low, high)` sampled once by `ind_sample` with
/// `rand::thread_rng()`: an index drawn uniformly from `low..high`.
///
/// `Range::new` panics unless `low < high`, which the precondition rules out.
/// For integers the sample is `low` plus a remainder modulo `high - low`, so
/// it lies in the half-open range; that is all the contract claims.
#[verifier::external_body]
pub(crate) fn random_index(low: usize, high: usize) -> (index: usize)
    requires
        low < high,
    ensures
        low <= index < high,
{
    Range::new(low, high).ind_sample(&mut rand::thread_rng())
}

} // verus!
