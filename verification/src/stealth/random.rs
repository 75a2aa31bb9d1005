//! The random source. Nothing is known of a sample but its range.

use rand::rngs::ThreadRng;
use rand::Rng;
use vstd::prelude::*;

verus! {

/// `rand::rngs::ThreadRng`, the handle to a thread's generator. Nothing is
/// known of what it holds.
#[verifier::external_type_specification]
#[verifier::external_body]
pub struct ExThreadRng(rand::rngs::ThreadRng);

/// `rand::thread_rng`: a handle to the generator of the current thread,
/// seeded by the system. Nothing is claimed of the handle.
pub assume_specification[ rand::thread_rng ]() -> (rng: ThreadRng)
;

/// `Rng::gen_range` on `low..high`: the sample lies in the half-open range.
/// The call panics on an empty range, which `requires` leaves out.
#[verifier::external_body]
pub(crate) fn uniform_below(rng: &mut ThreadRng, low: u64, high: u64) -> (sample: u64)
    requires
        low < high,
    ensures
        low <= sample < high,
{
    rng.gen_range(low..high)
}

/// `Rng::gen_range` on `low..=high`: the sample lies in the closed range.
/// The call panics on an empty range, which `requires` leaves out.
#[verifier::external_body]
pub(crate) fn uniform_through(rng: &mut ThreadRng, low: u64, high: u64) -> (sample: u64)
    requires
        low <= high,
    ensures
        low <= sample <= high,
{
    rng.gen_range(low..=high)
}

/// `Rng::gen_ratio`: true with probability `numerator / denominator`; never
/// true when the numerator is zero, always true when the two are equal. The
/// call panics on a zero denominator and on a ratio above one, which
/// `requires` leaves out.
#[verifier::external_body]
pub(crate) fn chance(rng: &mut ThreadRng, numerator: u32, denominator: u32) -> (hit: bool)
    requires
        0 < denominator,
        numerator <= denominator,
    ensures
        numerator == 0 ==> !hit,
        numerator == denominator ==> hit,
{
    rng.gen_ratio(numerator, denominator)
}

/// `Rng::gen` at `u32`: any value of the type may come back.
#[verifier::external_body]
pub(crate) fn any_u32(rng: &mut ThreadRng) -> (sample: u32)
{
    rng.gen()
}

} // verus!
