//! The random draws of the fuzzer, taken from the thread-local generator.
use rand::seq::SliceRandom;
use rand::Rng;
use vstd::prelude::*;

verus! {

/// Calls `rand::Rng::gen::<u64>` on `rand::thread_rng()`: a uniformly
/// distributed 64-bit value.  Nothing is claimed of it beyond its type.
#[verifier::external_body]
pub(crate) fn random_u64() -> (r: u64) {
    rand::thread_rng().gen::<u64>()
}

/// Calls `rand::Rng::gen::<u8>` on `rand::thread_rng()`: a uniformly
/// distributed byte.  Nothing is claimed of it beyond its type.
#[verifier::external_body]
pub(crate) fn random_u8() -> (r: u8) {
    rand::thread_rng().gen::<u8>()
}

/// Calls `<[usize] as rand::seq::SliceRandom>::choose` with
/// `rand::thread_rng()` and copies the element it picks.  Its source returns
/// `None` exactly for an empty slice, and otherwise one of the slice's
/// elements; which one is left to chance and is not claimed.
#[verifier::external_body]
pub(crate) fn choose_from(items: &[usize]) -> (r: Option<usize>)
    ensures
        r is None <==> items@.len() == 0,
        r matches Some(x) ==> items@.contains(x),
{
    items.choose(&mut rand::thread_rng()).copied()
}

} // verus!
