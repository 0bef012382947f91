//! Trusted wrappers around the `rand` crate. The engine owns a thread-local
//! random number generator and draws uniformly distributed grid coordinates
//! from it when it places food or respawns the snake. Nothing is assumed of a
//! drawn value beyond its range.

use rand::Rng;
use vstd::prelude::*;

verus! {

#[verifier::external_type_specification]
#[verifier::external_body]
pub struct ExThreadRng(rand::rngs::ThreadRng);

/// Relies on rand::thread_rng: hands out the thread-local generator. Nothing
/// is stated of it; the generator is opaque.
#[verifier::external_body]
pub(crate) fn fresh_rng() -> rand::rngs::ThreadRng {
    rand::thread_rng()
}

/// Relies on rand::Rng::gen_range over the half-open range `lo..hi`: it
/// returns a uniformly distributed value in that range and panics only when
/// the range is empty, which the precondition excludes. Only the range of the
/// result is stated; which value comes back is left open.
#[verifier::external_body]
pub(crate) fn rand_in_range(rng: &mut rand::rngs::ThreadRng, lo: i32, hi: i32) -> (r: i32)
    requires
        lo < hi,
    ensures
        lo <= r < hi,
{
    rng.gen_range(lo..hi)
}

} // verus!
