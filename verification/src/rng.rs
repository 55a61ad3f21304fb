//! The run's single random source.
//!
//! The generator itself comes from the `rand` crate; the library draws
//! nothing from it but uniform integers below a caller-chosen bound,
//! and every decision taken on a draw is made by verified code. Two
//! draws from equal state are not assumed equal: the contracts state
//! only what holds of every outcome.

use vstd::prelude::*;

use rand::RngExt;
use rand::SeedableRng;

verus! {

/// Declares `rand`'s standard generator so it can stand in a field;
/// the library sees nothing of its inside.
#[verifier::external_type_specification]
#[verifier::external_body]
pub struct ExStdRng(rand::rngs::StdRng);

/// The sequential generator handed to the spawner, by exclusive
/// reference; no global singleton.
pub struct RandomSource {
    rng: rand::rngs::StdRng,
}

impl RandomSource {
    /// A generator in a reproducible state.
    ///
    /// Relies on `rand::SeedableRng::seed_from_u64`, which builds a
    /// `StdRng` deterministically from the seed.
    #[verifier::external_body]
    pub fn from_seed(seed: u64) -> RandomSource {
        RandomSource { rng: rand::rngs::StdRng::seed_from_u64(seed) }
    }

    /// A generator seeded from the operating system's entropy.
    ///
    /// Relies on `rand::make_rng`, which seeds a `StdRng` from the
    /// thread-local generator backed by OS entropy, and aborts only
    /// when the system cannot provide entropy at all.
    #[verifier::external_body]
    pub fn from_entropy() -> RandomSource {
        RandomSource { rng: rand::make_rng() }
    }

    /// One uniform draw from `[0, n)`.
    ///
    /// Relies on `rand::RngExt::random_range` over the range `0..n`,
    /// which returns a value of the range and panics only when the
    /// range is empty.
    #[verifier::external_body]
    pub(crate) fn sample_below(&mut self, n: u64) -> (r: u64)
        requires
            n >= 1,
        ensures
            r < n,
    {
        self.rng.random_range(0..n)
    }
}

} // verus!
