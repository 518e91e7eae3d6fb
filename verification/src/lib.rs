//! The discrete rules of a small hopping game: a grid of platforms, each
//! carrying an arrow that tells the player where to jump next.
//!
//! Everything here works on integers and enums; turning grid cells and
//! quarter turns into world-space floats is left to the caller.

pub mod direction;
pub mod level;
pub mod movement;
mod random;

pub use direction::{arrow_quarter_turns, grid_step, jump_directions, JumpDirection};
pub use level::{
    level_layout, place_platforms, platform_center_offset, random_direction, Platform,
    PLATFORM_COUNT_X, PLATFORM_COUNT_Y,
};
pub use movement::next_jump_direction;
