//! The decision taken at the end of every jump.

use crate::direction::{default_direction, fallback_direction, JumpDirection};
use vstd::prelude::*;

verus! {

/// Picks the direction of the next jump from what lies below the point
/// where the player landed. `arrows_below` holds the arrows of the
/// platforms that a ray cast straight down hits, nearest first.
/// The nearest platform's arrow wins; with nothing below, the player goes
/// on towards +Z.
pub fn next_jump_direction(arrows_below: &[JumpDirection]) -> (dir: JumpDirection)
    ensures
        arrows_below@.len() > 0 ==> dir == arrows_below@[0],
        arrows_below@.len() == 0 ==> dir == default_direction(),
{
    if arrows_below.len() > 0 {
        arrows_below[0]
    } else {
        fallback_direction()
    }
}

} // verus!
