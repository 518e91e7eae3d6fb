//! The four directions a jump can take, and how they look on the grid and
//! on a platform's arrow.

use vstd::prelude::*;

verus! {

/// One of the four horizontal directions a jump can go in.
///
/// `PosX` and `NegX` run along the world X axis, `PosZ` and `NegZ` along
/// the world Z axis. Grid columns follow X and grid rows follow Z.
#[derive(Clone, Copy, Debug, PartialEq, Eq, Structural)]
pub enum JumpDirection {
    PosX,
    NegX,
    PosZ,
    NegZ,
}

/// The grid step `(d_column, d_row)` that a jump in `dir` covers.
pub open spec fn step_of(dir: JumpDirection) -> (int, int) {
    match dir {
        JumpDirection::PosX => (1, 0),
        JumpDirection::NegX => (-1, 0),
        JumpDirection::PosZ => (0, 1),
        JumpDirection::NegZ => (0, -1),
    }
}

/// The signed angle, in quarter turns about the vertical axis, from the +X
/// direction to `dir`; positive values turn counter-clockwise seen from
/// above. A platform's arrow is drawn rotated by this angle.
pub open spec fn quarter_turns_of(dir: JumpDirection) -> int {
    match dir {
        JumpDirection::PosX => 0,
        JumpDirection::NegX => -2,
        JumpDirection::PosZ => -1,
        JumpDirection::NegZ => 1,
    }
}

/// The direction taken when there is nothing below to read an arrow from.
pub open spec fn default_direction() -> JumpDirection {
    JumpDirection::PosZ
}

/// The directions a platform's arrow is drawn from, in this order.
pub open spec fn all_directions() -> Seq<JumpDirection> {
    seq![JumpDirection::PosX, JumpDirection::NegX, JumpDirection::PosZ, JumpDirection::NegZ]
}

/// The directions a platform's arrow is drawn from.
pub fn jump_directions() -> (dirs: Vec<JumpDirection>)
    ensures
        dirs@ == all_directions(),
{
    vec![JumpDirection::PosX, JumpDirection::NegX, JumpDirection::PosZ, JumpDirection::NegZ]
}

/// The direction used when no platform is found below the player.
pub fn fallback_direction() -> (dir: JumpDirection)
    ensures
        dir == default_direction(),
{
    JumpDirection::PosZ
}

/// The grid step `(d_column, d_row)` of one jump in `dir`.
pub fn grid_step(dir: JumpDirection) -> (step: (i8, i8))
    ensures
        (step.0 as int, step.1 as int) == step_of(dir),
{
    match dir {
        JumpDirection::PosX => (1, 0),
        JumpDirection::NegX => (-1, 0),
        JumpDirection::PosZ => (0, 1),
        JumpDirection::NegZ => (0, -1),
    }
}

/// How far, in quarter turns, a platform's arrow is rotated about the
/// vertical axis so that it points along `dir`.
pub fn arrow_quarter_turns(dir: JumpDirection) -> (turns: i8)
    ensures
        turns as int == quarter_turns_of(dir),
{
    match dir {
        JumpDirection::PosX => 0,
        JumpDirection::NegX => -2,
        JumpDirection::PosZ => -1,
        JumpDirection::NegZ => 1,
    }
}

/// Every jump covers exactly one grid cell, along one axis.
pub proof fn lemma_step_is_one_cell(dir: JumpDirection)
    ensures
        ({
            let (dc, dr) = step_of(dir);
            (dc == 0 || dr == 0) && (dc == 1 || dc == -1 || dr == 1 || dr == -1)
        }),
{
}

/// Different directions move to different cells, and every one of the
/// four neighbouring cells is reached by exactly one direction.
pub proof fn lemma_steps_distinct(a: JumpDirection, b: JumpDirection)
    ensures
        step_of(a) == step_of(b) <==> a == b,
{
}

/// Every direction is one of the four that arrows are drawn from.
pub proof fn lemma_all_directions_complete(dir: JumpDirection)
    ensures
        all_directions().contains(dir),
{
    let i: int = match dir {
        JumpDirection::PosX => 0,
        JumpDirection::NegX => 1,
        JumpDirection::PosZ => 2,
        JumpDirection::NegZ => 3,
    };
    assert(all_directions()[i] == dir);
}

/// Arrows for different directions are drawn at different angles, and the
/// arrows of opposite directions point half a turn apart.
pub proof fn lemma_arrow_orientation(a: JumpDirection, b: JumpDirection)
    ensures
        quarter_turns_of(a) == quarter_turns_of(b) <==> a == b,
        step_of(a).0 == -step_of(b).0 && step_of(a).1 == -step_of(b).1 ==> (
            quarter_turns_of(a) - quarter_turns_of(b) == 2
            || quarter_turns_of(a) - quarter_turns_of(b) == -2),
        -2 <= quarter_turns_of(a) <= 1,
{
}

/// With nothing below, the player keeps jumping towards +Z.
pub proof fn lemma_default_moves_forward()
    ensures
        step_of(default_direction()) == (0int, 1int),
{
}

} // verus!
