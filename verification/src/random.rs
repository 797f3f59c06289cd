//! Random numbers, drawn from the `rand` crate.

use vstd::prelude::*;
use rand::Rng;

verus! {

/// The generator of the calling thread, from the `rand` crate. Nothing inside
/// it is visible here.
#[verifier::external_type_specification]
#[verifier::external_body]
pub struct ExThreadRng(rand::rngs::ThreadRng);

/// `rand::rng`: hands out the generator of the calling thread, which the
/// crate seeds from the system. Nothing is claimed of it.
pub assume_specification[ rand::rng ]() -> (rng: rand::rngs::ThreadRng)
;

/// `rand::Rng::random_range` on the half-open range from `low` to `high`. The
/// call panics on an empty range, which `requires` leaves out; whatever is
/// drawn lies in the range, as the crate's integer sampler shows. Which
/// number comes is not claimed.
#[verifier::external_body]
pub(crate) fn random_range(rng: &mut rand::rngs::ThreadRng, low: u64, high: u64) -> (drawn: u64)
    requires
        low < high,
    ensures
        low <= drawn < high,
{
    rng.random_range(low..high)
}

} // verus!
