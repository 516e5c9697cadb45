//! Random draws, taken from the thread-local generator of `rand`.
use vstd::prelude::*;

verus! {

/// Calls `rand::random_range(0..bound)`, a draw from the thread-local
/// generator. The contract claims what rand's documentation promises of every
/// outcome: the value lies in the range (rand panics on an empty range, which
/// `requires` leaves out). Which value comes back rests on chance and is left
/// unsaid.
#[verifier::external_body]
pub(crate) fn random_below(bound: usize) -> (value: usize)
    requires
        bound > 0,
    ensures
        value < bound,
{
    rand::random_range(0..bound)
}

/// Calls `rand::random_ratio(numerator, denominator)`, true with probability
/// `numerator / denominator`. The contract claims what rand's documentation
/// promises of every outcome: never true for a zero numerator, always true
/// when numerator and denominator are equal (rand panics on a zero
/// denominator or a numerator above it, which `requires` leaves out). Any
/// other outcome rests on chance and is left unsaid.
#[verifier::external_body]
pub(crate) fn random_ratio(numerator: u32, denominator: u32) -> (hit: bool)
    requires
        0 < denominator,
        numerator <= denominator,
    ensures
        numerator == 0 ==> !hit,
        numerator == denominator ==> hit,
{
    rand::random_ratio(numerator, denominator)
}

/// A roll in whole percent: a value below 100, drawn uniformly.
pub fn roll_percent() -> (roll: u32)
    ensures
        roll < 100,
{
    random_below(100) as u32
}

} // verus!
