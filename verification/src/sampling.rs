//! Drawing one item at random from a list.
//!
//! The generator and the draw belong to the `rand` crate. Nothing here is
//! proved of them: the contracts below say what that crate documents, and
//! the rest of the library relies on no more.

use rand::seq::SliceRandom;
use vstd::prelude::*;

verus! {

/// `rand::rngs::ThreadRng`, the handle to the calling thread's generator.
/// What is inside it is not modelled.
#[verifier::external_type_specification]
#[verifier::external_body]
pub struct ExThreadRng(rand::rngs::ThreadRng);

/// `rand::thread_rng` hands out the handle to the thread's generator, which
/// the system seeds on first use. Nothing is claimed of the handle. Where
/// the system gives no seed, the call panics.
pub assume_specification[ rand::thread_rng ]() -> (rng: rand::rngs::ThreadRng);

/// `rand::seq::SliceRandom::choose` on the items of `items`, with `rng`
/// as the generator. The claim: where the list is empty the draw gives
/// nothing, and otherwise it gives a reference to one of the items. Which
/// one is left open, and so is the state that `rng` is left in.
#[verifier::external_body]
pub(crate) fn choose_from<'a, T>(
    items: &'a Vec<T>,
    rng: &mut rand::rngs::ThreadRng,
) -> (picked: Option<&'a T>)
    ensures
        picked is None <==> items@.len() == 0,
        picked matches Some(item) ==> exists|i: int|
            0 <= i < items@.len() && items@[i] == *item,
{
    items.choose(rng)
}

} // verus!
