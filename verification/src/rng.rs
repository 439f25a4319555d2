//! The engine's one source of randomness: a uniform index draw, used to
//! pick a spawn point and to roll a power-up.

use vstd::prelude::*;

verus! {

/// Relies on `rand::Rng::gen_range` over the half-open range `0..n`
/// (with the generator from `rand::thread_rng`): the result is always
/// below `n`, and the call panics only on an empty range, which the
/// precondition rules out.  Nothing else is assumed of the draw.
#[verifier::external_body]
pub(crate) fn gen_index(n: u64) -> (r: u64)
    requires
        n >= 1,
    ensures
        r < n,
{
    rand::Rng::gen_range(&mut rand::thread_rng(), 0..n)
}

} // verus!
