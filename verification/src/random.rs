//! The one source of chance: the thread's random number generator.

use rand::Rng;
use vstd::prelude::*;

verus! {

/// Draws an index from `low..=high` with `rand::Rng::random_range` on the
/// generator that `rand::rng` hands out. That method refuses an empty range,
/// which `requires` leaves out, and returns a value of the range. Which one
/// it returns is left open: two draws from one range may differ.
#[verifier::external_body]
pub(crate) fn random_range(low: usize, high: usize) -> (drawn: usize)
    requires
        low <= high,
    ensures
        low <= drawn <= high,
{
    rand::rng().random_range(low..=high)
}

} // verus!
