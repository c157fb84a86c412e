//! The engine's pseudo-random source, used only for food placement.
//!
//! The generator itself comes from the `rand` crate and is opaque to the
//! verifier; the engine only relies on a sampled coordinate lying in the
//! requested range. A seedable constructor lets tests drive food placement
//! deterministically.

use vstd::prelude::*;

use rand::Rng;
use rand::SeedableRng;

verus! {

#[verifier::external_type_specification]
#[verifier::external_body]
pub struct ExStdRng(rand::rngs::StdRng);

/// Relies on rand's `StdRng::from_entropy` to build a generator seeded from
/// the operating system's entropy source. Nothing is assumed of the
/// generator's state.
#[verifier::external_body]
pub(crate) fn rng_from_entropy() -> rand::rngs::StdRng {
    rand::rngs::StdRng::from_entropy()
}

/// Relies on rand's `SeedableRng::seed_from_u64` to build a generator whose
/// output is a fixed function of the seed. Nothing is assumed of the
/// generator's state.
#[verifier::external_body]
pub(crate) fn rng_from_seed(seed: u64) -> rand::rngs::StdRng {
    rand::rngs::StdRng::seed_from_u64(seed)
}

/// Relies on rand's `Rng::gen_range`: a sample from the half-open range
/// `lo..hi` lies within that range. The call panics only on an empty range,
/// which the precondition rules out. The sample itself is random, so nothing
/// more is assumed of it.
#[verifier::external_body]
pub(crate) fn rng_gen_range(rng: &mut rand::rngs::StdRng, lo: i32, hi: i32) -> (r: i32)
    requires
        lo < hi,
    ensures
        lo <= r < hi,
{
    rng.gen_range(lo..hi)
}

} // verus!
