//! The process-wide random source, reached through the `rand` crate.

use rand::seq::SliceRandom;
use rand::Rng;
use vstd::prelude::*;

verus! {

/// Relies on rand's `Rng::gen_range` over an inclusive range `0..=hi`:
/// the value drawn lies within that range (the full range is allowed).
#[verifier::external_body]
pub(crate) fn random_upto(hi: u128) -> (r: u128)
    ensures
        r <= hi,
{
    rand::thread_rng().gen_range(0..=hi)
}

/// Relies on `rand::random::<bool>`: a fair coin; nothing is promised of the outcome.
#[verifier::external_body]
pub(crate) fn random_flag() -> (r: bool) {
    rand::random::<bool>()
}

/// Relies on rand's `Rng::gen_range` over a half-open range `lo..hi`, which
/// is not empty: the value drawn lies within it.
#[verifier::external_body]
pub(crate) fn random_in(lo: u64, hi: u64) -> (r: u64)
    requires
        lo < hi,
    ensures
        lo <= r < hi,
{
    rand::thread_rng().gen_range(lo..hi)
}

/// Relies on rand's `Alphanumeric` distribution: an ASCII letter or digit.
#[verifier::external_body]
pub(crate) fn random_alphanumeric() -> (r: char)
    ensures
        ('a' <= r <= 'z') || ('A' <= r <= 'Z') || ('0' <= r <= '9'),
{
    char::from(rand::thread_rng().sample(rand::distributions::Alphanumeric))
}

/// Relies on rand's `SliceRandom::choose`: an item of the slice, which is
/// returned whenever the slice is not empty.
#[verifier::external_body]
pub(crate) fn pick<T>(table: &Vec<T>) -> (r: &T)
    requires
        table@.len() > 0,
    ensures
        table@.contains(*r),
{
    table.choose(&mut rand::thread_rng()).unwrap()
}

} // verus!
