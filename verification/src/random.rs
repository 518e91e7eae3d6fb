//! The random choices of the level layout, drawn from the `rand` crate.

use crate::direction::JumpDirection;
use rand::rngs::ThreadRng;
use rand::seq::SliceRandom;
use vstd::prelude::*;

verus! {

/// The thread-local generator of `rand`, carried through unopened.
#[verifier::external_type_specification]
#[verifier::external_body]
pub struct ExThreadRng(ThreadRng);

/// Calls `rand::thread_rng`, which hands out the lazily seeded thread-local
/// generator. Nothing is claimed of the generator's state.
#[verifier::external_body]
pub(crate) fn new_thread_rng() -> ThreadRng {
    rand::thread_rng()
}

/// Calls `SliceRandom::choose` on a slice of directions and copies the
/// element it picks. The crate documents, and its slice implementation
/// shows, that the result is `None` exactly when the slice is empty and is
/// otherwise one of the slice's elements; which element depends on the
/// generator and is left unsaid.
#[verifier::external_body]
pub(crate) fn choose_direction(options: &[JumpDirection], rng: &mut ThreadRng) -> (chosen:
    Option<JumpDirection>)
    ensures
        chosen is None <==> options@.len() == 0,
        chosen matches Some(d) ==> options@.contains(d),
{
    options.choose(rng).copied()
}

} // verus!
