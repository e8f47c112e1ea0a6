//! The seedable random generator behind the debris scatter, declared
//! from the `rand` crate and trusted at this boundary.

use vstd::prelude::*;

verus! {

#[verifier::external_type_specification]
#[verifier::external_body]
pub struct ExStdRng(rand::rngs::StdRng);

/// Relies on rand's `SeedableRng::seed_from_u64`: a deterministic
/// generator built from the seed, injected so tests can fix the scatter.
#[verifier::external_body]
pub fn seed_rng(seed: u64) -> rand::rngs::StdRng {
    <rand::rngs::StdRng as rand::SeedableRng>::seed_from_u64(seed)
}

/// Relies on rand's `Rng::gen_range` over an inclusive `i64` range: the
/// sample always lies inside the (nonempty) range. Nothing else is
/// assumed of it: every caller must cope with every value in the range.
#[verifier::external_body]
pub fn sample_in_range(rng: &mut rand::rngs::StdRng, lo: i64, hi: i64) -> (r: i64)
    requires
        lo <= hi,
    ensures
        lo <= r <= hi,
{
    rand::Rng::gen_range(rng, lo..=hi)
}

} // verus!
