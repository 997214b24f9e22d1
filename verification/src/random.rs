//! Calls into `rand`, each behind a trusted item whose contract says only what holds of every
//! outcome.
use vstd::prelude::*;

use rand::rngs::ThreadRng;
use rand::seq::IteratorRandom;
use rand::Rng;

verus! {

/// `rand::rngs::ThreadRng`, the thread-local generator; opaque here.
#[verifier::external_type_specification]
#[verifier::external_body]
pub struct ExThreadRng(ThreadRng);

/// `rand::rng`: a handle on the thread-local generator. Nothing is stated of it.
#[verifier::external_body]
pub(crate) fn thread_rng() -> ThreadRng {
    rand::rng()
}

/// `Rng::random_range` over `..len` for `usize`: a number below `len`. The call panics on an
/// empty range, so `len` must be positive. Which number comes back is left to chance.
#[verifier::external_body]
pub(crate) fn random_below(rng: &mut ThreadRng, len: usize) -> (r: usize)
    requires
        len > 0,
    ensures
        r < len,
{
    rng.random_range(..len)
}

/// `Rng::random_ratio`: `true` with probability `numerator / denominator`. The call panics when
/// `denominator` is 0 or below `numerator`; the result is certainly `false` when `numerator`
/// is 0 and certainly `true` when the two are equal.
#[verifier::external_body]
pub(crate) fn random_ratio(rng: &mut ThreadRng, numerator: u32, denominator: u32) -> (r: bool)
    requires
        0 < denominator,
        numerator <= denominator,
    ensures
        numerator == 0 ==> !r,
        numerator == denominator ==> r,
{
    rng.random_ratio(numerator, denominator)
}

/// `IteratorRandom::choose` over the items of a slice: `None` exactly when the slice is
/// empty, and otherwise one of its items, picked by chance.
#[verifier::external_body]
pub(crate) fn choose_item(items: &[&'static str], rng: &mut ThreadRng) -> (r: Option<
    &'static str,
>)
    ensures
        r is None <==> items@.len() == 0,
        r matches Some(s) ==> items@.contains(s),
{
    items.iter().choose(rng).copied()
}

} // verus!
