//! Random draws.

use vstd::prelude::*;
use rand::Rng;

verus! {

/// Draws a number from `low..high` with `rand`'s thread-local generator
/// (`rand::thread_rng().gen_range(low..high)`).
///
/// Trusted: the draw lies in the half-open range. `gen_range` panics on an
/// empty range, which `requires` leaves out. Nothing is said of which number
/// comes, and two draws need not agree.
#[verifier::external_body]
pub(crate) fn random_in(low: u32, high: u32) -> (drawn: u32)
    requires
        low < high,
    ensures
        low <= drawn < high,
{
    rand::thread_rng().gen_range(low..high)
}

} // verus!
