//! The one place where chance enters: coordinates for spawn candidates.

use vstd::prelude::*;
use rand::Rng;

verus! {

/// Draws a coordinate from `low` up to, not including, `high`.
///
/// Trusted, not proved: this calls `Rng::gen_range` of the `rand` crate on
/// the generator that `rand::thread_rng` hands out, with the half-open
/// range `low..high`. The contract claims what `gen_range` documents for
/// such a range: it panics if the range is empty, which `requires` rules
/// out, and its result lies in the range. Which value it is depends on
/// chance, so nothing more is said of it.
#[verifier::external_body]
pub(crate) fn random_coordinate(low: i32, high: i32) -> (c: i32)
    requires
        low < high,
    ensures
        low <= c < high,
{
    rand::thread_rng().gen_range(low..high)
}

} // verus!
