//! The draws that the game takes from the `rand` crate.
//!
//! Nothing here is proved: each function states what `rand` documents of the
//! call it makes, for every outcome of the draw. All three draw from the
//! generator of the calling thread, `rand::rng()`, which panics only if the
//! operating system cannot seed it, or reseed it later.

use crate::chambers::is_selection;
use crate::probability::Probability;
use rand::Rng;
use vstd::prelude::*;

verus! {

/// Calls `rand::seq::index::sample`, which picks `amount` distinct indices
/// below `length` in random order and panics when `amount` exceeds `length`.
/// For a `length` beyond `u32::MAX` it samples by rejection, which asserts
/// that `amount` is below `length`; so the whole of such a range cannot be
/// asked for.
///
/// The contract claims that the result holds `amount` indices, each below
/// `length`, none twice. It does not say which: every such choice can come
/// back.
#[verifier::external_body]
pub(crate) fn sample_indices(length: usize, amount: usize) -> (picked: Vec<usize>)
    requires
        amount <= length,
        length > u32::MAX ==> amount < length,
    ensures
        picked@.len() == amount,
        is_selection(picked@, length as nat),
{
    rand::seq::index::sample(&mut rand::rng(), length, amount).into_vec()
}

/// Calls `rand::Rng::random_ratio`, which is true with a chance of
/// `numerator` in `denominator` and panics when that is no probability.
///
/// The contract claims what `rand` guarantees of the two ends: a chance of
/// zero never hits, and a chance of one always does.
#[verifier::external_body]
pub(crate) fn draw_ratio(numerator: u32, denominator: u32) -> (hit: bool)
    requires
        Probability::is_ratio(numerator, denominator),
    ensures
        numerator == 0 ==> !hit,
        numerator == denominator ==> hit,
{
    rand::rng().random_ratio(numerator, denominator)
}

/// Calls `rand::Rng::random_range` on the closed range from `low` to `high`,
/// which panics when the range is empty.
///
/// The contract claims that the result lies in the range.
#[verifier::external_body]
pub(crate) fn draw_between(low: u32, high: u32) -> (drawn: u32)
    requires
        low <= high,
    ensures
        low <= drawn <= high,
{
    rand::rng().random_range(low..=high)
}

} // verus!
