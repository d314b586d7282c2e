//! Chance, from the `rand` crate. Nothing is promised of a roll beyond the
//! range it is drawn from; the rules that use a roll take it as an argument
//! elsewhere, so they are stated for every possible value.

use vstd::prelude::*;
use rand::seq::IteratorRandom;
use rand::Rng;

verus! {

/// Relies on `rand::Rng::gen_range` over `low..=high`: the value lies in the
/// inclusive range, which must not be empty (it panics then).
#[verifier::external_body]
pub(crate) fn roll(low: usize, high: usize) -> (r: usize)
    requires
        low <= high,
    ensures
        low <= r <= high,
{
    rand::thread_rng().gen_range(low..=high)
}

/// Relies on `rand::seq::IteratorRandom::choose` over `0..length`: one of
/// the positions below `length`, or `None` exactly when there is none.
#[verifier::external_body]
pub(crate) fn choose_index(length: usize) -> (r: Option<usize>)
    ensures
        r is None <==> length == 0,
        r matches Some(i) ==> i < length,
{
    (0..length).choose(&mut rand::thread_rng())
}

/// Relies on `rand::Rng::gen_ratio`: true with probability
/// `numerator / denominator`; never when the numerator is zero, always when
/// it equals the denominator. It panics on a zero denominator or a
/// numerator above it.
#[verifier::external_body]
pub(crate) fn chance(numerator: u32, denominator: u32) -> (r: bool)
    requires
        0 < denominator,
        numerator <= denominator,
    ensures
        numerator == 0 ==> !r,
        numerator == denominator ==> r,
{
    rand::thread_rng().gen_ratio(numerator, denominator)
}

/// Relies on `rand::random::<bool>`: a fair coin, nothing promised.
#[verifier::external_body]
pub(crate) fn coin_flip() -> (r: bool) {
    rand::random::<bool>()
}

/// Relies on `rand::seq::index::sample`: exactly `amount` distinct indices
/// below `length`, in random order. It panics when `amount > length`.
#[verifier::external_body]
pub(crate) fn sample_indices(length: usize, amount: usize) -> (r: Vec<usize>)
    requires
        amount <= length,
    ensures
        r@.len() == amount,
        forall|i: int| 0 <= i < r@.len() ==> r@[i] < length,
        forall|i: int, j: int| 0 <= i < j < r@.len() ==> r@[i] != r@[j],
{
    rand::seq::index::sample(&mut rand::thread_rng(), length, amount).into_vec()
}

} // verus!
