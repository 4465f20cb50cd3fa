//! The random number generator of bracket-lib, as the game logic uses it.

use vstd::prelude::*;
use bracket_lib::random::RandomNumberGenerator;

verus! {

/// The xorshift generator of bracket-lib; opaque to the proofs.
#[verifier::external_type_specification]
#[verifier::external_body]
pub struct ExRandomNumberGenerator(RandomNumberGenerator);

/// Relies on `RandomNumberGenerator::new`: a generator seeded from the
/// operating system (or the clock); nothing is known of its output.
pub assume_specification[ RandomNumberGenerator::new ]() -> RandomNumberGenerator;

/// Relies on `RandomNumberGenerator::range`, which calls `rand`'s
/// `gen_range(min..max)`: a value in the half-open range `[lo, hi)`.
/// That call panics on an empty range, hence `lo < hi`.
#[verifier::external_body]
pub(crate) fn random_range(rng: &mut RandomNumberGenerator, lo: i32, hi: i32) -> (r: i32)
    requires
        lo < hi,
    ensures
        lo <= r < hi,
{
    rng.range(lo, hi)
}

} // verus!
