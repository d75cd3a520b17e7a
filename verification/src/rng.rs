//! Random number generation for the heartbeat jitter, behind trusted
//! declarations of the rand crate's generator.

use vstd::prelude::*;

verus! {

#[verifier::external_type_specification]
#[verifier::external_body]
pub struct ExStdRng(rand::rngs::StdRng);

/// Relies on `rand::make_rng`: seeds a fresh standard generator from the
/// process's entropy source. Nothing is assumed about what it yields.
#[verifier::external_body]
pub fn new_std_rng() -> (r: rand::rngs::StdRng) {
    rand::make_rng()
}

/// Relies on `rand::RngExt::random_range` over `0..n`: it panics only on
/// an empty range, and returns a value drawn from the range.
#[verifier::external_body]
pub fn rng_below(rng: &mut rand::rngs::StdRng, n: u64) -> (r: u64)
    requires
        n >= 1,
    ensures
        r < n,
{
    rand::RngExt::random_range(rng, 0..n)
}

} // verus!
