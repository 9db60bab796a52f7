//! The single random-number stream behind the engine.
//!
//! Every stochastic decision of the game draws from one `rand::rngs::StdRng`
//! seeded from the player's seed, through the two wrappers below, so a seed
//! determines the whole stream of draws.

use vstd::prelude::*;

use rand::rngs::StdRng;

verus! {

#[verifier::external_type_specification]
#[verifier::external_body]
pub struct ExStdRng(StdRng);

/// Relies on rand::SeedableRng::seed_from_u64 for StdRng: builds a
/// deterministic generator from the 64-bit seed.
#[verifier::external_body]
pub(crate) fn seed_rng(seed: u64) -> StdRng {
    <StdRng as rand::SeedableRng>::seed_from_u64(seed)
}

/// Relies on rand::Rng::gen_range on the range `0..bound`: returns a value
/// drawn from that half-open range (it panics only on an empty range, which
/// the precondition rules out).
#[verifier::external_body]
pub(crate) fn rng_below(rng: &mut StdRng, bound: u32) -> (r: u32)
    requires
        bound >= 1,
    ensures
        r < bound,
{
    rand::Rng::gen_range(rng, 0..bound)
}

} // verus!
