//! Draws from the thread-local random generator of the `rand` crate.
//!
//! Nothing here is proved: each contract states what the crate documents of
//! every outcome, and the callers are verified for whatever value comes back.

use rand::seq::SliceRandom;
use rand::Rng;
use vstd::prelude::*;

verus! {

/// Calls `Rng::gen_range` with the half-open range `low..high` on
/// `rand::thread_rng()`. The crate documents that the value lies in the range
/// and that an empty range panics, which the precondition rules out.
#[verifier::external_body]
pub(crate) fn random_in_range(low: u64, high: u64) -> (value: u64)
    requires
        low < high,
    ensures
        low <= value < high,
{
    rand::thread_rng().gen_range(low..high)
}

/// Calls `Rng::gen_ratio` on `rand::thread_rng()`: `true` with probability
/// `numerator / denominator`. The crate documents a panic for a zero
/// denominator or a numerator above it, and fixes the outcome at both ends of
/// the scale; of any other ratio the contract says nothing.
#[verifier::external_body]
pub(crate) fn random_ratio(numerator: u32, denominator: u32) -> (hit: bool)
    requires
        denominator > 0,
        numerator <= denominator,
    ensures
        numerator == denominator ==> hit,
        numerator == 0 ==> !hit,
{
    rand::thread_rng().gen_ratio(numerator, denominator)
}

/// Calls `SliceRandom::shuffle` with `rand::thread_rng()`. The crate shuffles
/// in place by swapping elements, so the cards afterwards are the cards before
/// in some order.
#[verifier::external_body]
pub(crate) fn shuffle_cards(cards: &mut Vec<u8>)
    ensures
        final(cards)@.to_multiset() == old(cards)@.to_multiset(),
{
    cards.shuffle(&mut rand::thread_rng());
}

} // verus!
