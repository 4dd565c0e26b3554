//! Seeded random number generation, through the rand crate.
//!
//! The generator itself is opaque to the verifier: each draw is trusted
//! to fall in the requested range and nothing more, so everything built
//! on the draws is proved for every value they could take.

use vstd::prelude::*;

verus! {

#[verifier::external_type_specification]
#[verifier::external_body]
pub struct ExStdRng(rand::rngs::StdRng);

/// Relies on rand's `StdRng::seed_from_u64`: a generator built from a
/// 64-bit seed.
#[verifier::external_body]
pub fn rng_from_seed(seed: u64) -> rand::rngs::StdRng {
    <rand::rngs::StdRng as rand::SeedableRng>::seed_from_u64(seed)
}

/// Relies on rand's `Rng::gen_range` on a half-open `i64` range: it
/// panics only on an empty range, and returns a value drawn from
/// `[lo, hi)`.
#[verifier::external_body]
pub fn gen_range_i64(rng: &mut rand::rngs::StdRng, lo: i64, hi: i64) -> (r: i64)
    requires
        lo < hi,
    ensures
        lo <= r < hi,
{
    rand::Rng::gen_range(rng, lo..hi)
}

} // verus!
