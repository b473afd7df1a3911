//! The random draws of the simulation, taken from the thread-local generator.

use rand::rngs::ThreadRng;
use rand::Rng;
use vstd::prelude::*;

verus! {

/// `rand::rngs::ThreadRng`, the handle to a thread's generator, as a type
/// that is only passed on: nothing inside it is looked at.
#[verifier::external_type_specification]
#[verifier::external_body]
pub struct ExThreadRng(ThreadRng);

/// `rand::thread_rng`: a handle to the generator of the calling thread, which
/// the operating system seeds on first use. Nothing is claimed of the handle.
pub assume_specification[ rand::thread_rng ]() -> (rng: ThreadRng);

/// `Rng::gen_range` on an inclusive range of `i32`: some value of the range.
/// The call panics on an empty range, which the precondition leaves out.
#[verifier::external_body]
pub(crate) fn draw_inclusive(rng: &mut ThreadRng, low: i32, high: i32) -> (value: i32)
    requires
        low <= high,
    ensures
        low <= value <= high,
{
    rng.gen_range(low..=high)
}

/// `Rng::gen_ratio`: a coin that lands `true` with the given odds. The call
/// panics on a zero denominator and on odds above one, which the precondition
/// leaves out. Which side comes up is not claimed.
#[verifier::external_body]
pub(crate) fn draw_ratio(rng: &mut ThreadRng, numerator: u32, denominator: u32) -> (hit: bool)
    requires
        0 < denominator,
        numerator <= denominator,
{
    rng.gen_ratio(numerator, denominator)
}

} // verus!
