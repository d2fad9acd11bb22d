//! Random draws. Nothing is promised of a draw beyond its range.
use vstd::prelude::*;

verus! {

/// Relies on `rand::Rng::gen_range` over the thread-local generator: a value
/// in `0..bound`. It panics on an empty range, so `bound` is positive.
#[verifier::external_body]
pub(crate) fn random_below(bound: u64) -> (r: u64)
    requires
        bound > 0,
    ensures
        r < bound,
{
    rand::Rng::gen_range(&mut rand::thread_rng(), 0..bound)
}

} // verus!
