//! Fixed parameters of the game: the window, the playing field, the sprites.
//!
//! All lengths are in coordinate units: thousandths of a screen unit
//! (`COORD_SCALE` per screen unit). The window is 960 by 540 screen units,
//! with a 60-unit interface bar across the top and the bottom of the screen;
//! the origin lies at the window's centre.

use vstd::prelude::*;

verus! {

/// Coordinate units per screen unit.
pub const COORD_SCALE: i64 = 1000;

/// Width of the window, in coordinate units.
pub const WINDOW_WIDTH: i64 = 960 * COORD_SCALE;

/// Height of the window, in coordinate units.
pub const WINDOW_HEIGHT: i64 = 540 * COORD_SCALE;

/// Height of each of the two interface bars, in coordinate units.
pub const UI_BAR_HEIGHT: i64 = 60 * COORD_SCALE;

/// Side length of a character sprite cell, in coordinate units.
pub const SPRITE_SIZE: i64 = 24 * COORD_SCALE;

/// Radius of a stick's bounding circle, in coordinate units.
pub const STICK_RADIUS: i64 = 24 * COORD_SCALE;

/// Half extent of the player's bounding box, in coordinate units
/// (half the player's transform scale).
pub const PLAYER_HALF_EXTENT: i64 = 1 * COORD_SCALE;

/// Margin kept between a freshly spawned stick and the field's edge,
/// in coordinate units.
pub const SPAWN_MARGIN: i64 = 16 * COORD_SCALE;

/// The movement speed a fresh game starts with, in screen units per second.
pub const INITIAL_SPEED: u32 = 150;

/// How much the movement speed grows with each collected stick,
/// in screen units per second.
pub const SPEED_PER_STICK: u32 = 10;

/// First frame index of the player's walking animation.
pub const ANIMATION_FIRST_FRAME: usize = 1;

/// Last frame index of the player's walking animation.
pub const ANIMATION_LAST_FRAME: usize = 6;

} // verus!
