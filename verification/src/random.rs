//! The one place where chance enters: picking an item at random.
use vstd::prelude::*;

use rand::seq::SliceRandom;

verus! {

/// Picks one item of `items` with rand's `SliceRandom::choose`, driven by the
/// thread-local generator of `rand::thread_rng`. Trusted to return `None`
/// exactly when `items` is empty and otherwise a reference to one of the
/// items; which one is left to chance and is not stated.
#[verifier::external_body]
pub(crate) fn choose_one<T>(items: &[T]) -> (r: Option<&T>)
    ensures
        r is None <==> items@.len() == 0,
        r matches Some(x) ==> items@.contains(*x),
{
    items.choose(&mut rand::thread_rng())
}

} // verus!
