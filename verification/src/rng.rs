//! The spawner's source of randomness, behind trusted wrappers. A random
//! draw depends on the generator's hidden state, so nothing is promised of a
//! result beyond its range; every rule built on a draw is verified for every
//! value in that range.

use vstd::prelude::*;

verus! {

/// Relies on `rand::Rng::gen_range` over a thread-local generator: it
/// returns a value of the half-open range `0..n`, and panics only on an
/// empty range, which the precondition rules out.
#[verifier::external_body]
pub(crate) fn random_u32_below(n: u32) -> (r: u32)
    requires
        n >= 1,
    ensures
        r < n,
{
    rand::Rng::gen_range(&mut rand::thread_rng(), 0..n)
}

/// Relies on `rand::Rng::gen_range` over a thread-local generator: it
/// returns a value of the half-open range `lo..hi`, and panics only on an
/// empty range, which the precondition rules out.
#[verifier::external_body]
pub(crate) fn random_i64_in(lo: i64, hi: i64) -> (r: i64)
    requires
        lo < hi,
    ensures
        lo <= r < hi,
{
    rand::Rng::gen_range(&mut rand::thread_rng(), lo..hi)
}

} // verus!
