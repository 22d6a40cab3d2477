//! The random number generator of a drone.
use vstd::prelude::*;

verus! {

/// The type `rand::rngs::StdRng`, of which nothing is known but its name.
#[verifier::external_type_specification]
#[verifier::external_body]
pub struct ExStdRng(rand::rngs::StdRng);

/// The generator that `StdRng::seed_from_u64` makes from a seed.
pub uninterp spec fn seeded(seed: u64) -> rand::rngs::StdRng;

/// Calls `rand::random`, which returns a number by chance: any `u64` may come back.
/// It panics where the operating system has no entropy to give.
#[verifier::external_body]
pub(crate) fn random_seed() -> (seed: u64) {
    rand::random()
}

/// Calls `rand::SeedableRng::seed_from_u64` of `StdRng`, which is a function of the
/// seed alone: the same seed gives the same generator.
#[verifier::external_body]
pub(crate) fn generator_from_seed(seed: u64) -> (rng: rand::rngs::StdRng)
    ensures
        rng == seeded(seed),
{
    rand::SeedableRng::seed_from_u64(seed)
}

} // verus!
