//! Random sampling, behind trusted boundaries.
//!
//! Each simulator owns its private generator (constructor-injected, so
//! tests can seed it deterministically); these wrappers are the only places
//! that touch the `rand` crates.

use vstd::prelude::*;

verus! {

/// The standard seedable random generator of the `rand` crate, declared so
/// the simulators can own one as plain state.
#[verifier::external_type_specification]
#[verifier::external_body]
pub struct ExStdRng(rand::rngs::StdRng);

/// A generator seeded from operating-system entropy.
///
/// Relies on `rand::SeedableRng::from_entropy`; the state depends on the
/// machine, so nothing is promised.  It panics if the operating system's
/// entropy source fails — an environmental failure outside any caller's
/// control.
#[verifier::external_body]
pub fn rng_from_entropy() -> rand::rngs::StdRng {
    <rand::rngs::StdRng as rand::SeedableRng>::from_entropy()
}

/// A generator with a caller-chosen seed, for reproducible simulations.
///
/// Relies on `rand::SeedableRng::seed_from_u64`; which sequence a seed
/// yields is not promised.
#[verifier::external_body]
pub fn rng_seeded(seed: u64) -> rand::rngs::StdRng {
    <rand::rngs::StdRng as rand::SeedableRng>::seed_from_u64(seed)
}

/// A uniformly random integer in `[lo, hi)`.
///
/// Relies on `rand::Rng::gen_range`, which panics on an empty range (ruled
/// out by the precondition) and otherwise returns a member of the range.
#[verifier::external_body]
pub fn rand_range(rng: &mut rand::rngs::StdRng, lo: i64, hi: i64) -> (r: i64)
    requires
        lo < hi,
    ensures
        lo <= r < hi,
{
    rand::Rng::gen_range(rng, lo..hi)
}

/// A zero-mean, approximately normal sample with standard deviation
/// `sigma` (nano-units): the classic Irwin-Hall construction, the sum of
/// twelve uniform draws on `[0, sigma)` re-centered around zero.  The
/// result is always within six standard deviations.
pub fn gauss(rng: &mut rand::rngs::StdRng, sigma: i64) -> (r: i64)
    requires
        0 <= sigma <= 1_000_000_000_000_000,
    ensures
        -6 * sigma <= r <= 6 * sigma,
{
    if sigma == 0 {
        return 0;
    }
    let mut acc: i64 = 0;
    let mut i: u32 = 0;
    while i < 12
        invariant
            0 <= i <= 12,
            0 < sigma <= 1_000_000_000_000_000,
            0 <= acc <= i * sigma,
        decreases 12 - i,
    {
        proof {
            assert((i + 1) * sigma == i * sigma + sigma) by (nonlinear_arith);
            assert(i * sigma <= 12 * sigma) by (nonlinear_arith)
                requires
                    0 <= i <= 12,
                    sigma > 0,
            ;
        }
        acc = acc + rand_range(rng, 0, sigma);
        i = i + 1;
    }
    acc - 6 * sigma
}

} // verus!
