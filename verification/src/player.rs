//! The player: facing direction, per-frame movement, wrapping at the screen
//! edges, and the walking animation's frame index.

use crate::config::{SPRITE_SIZE, UI_BAR_HEIGHT, WINDOW_HEIGHT, WINDOW_WIDTH};
use crate::geometry::{Position, COORD_LIMIT};
use vstd::prelude::*;

verus! {

/// Which way the player faces. A fresh player is stationary; once a movement
/// key has been seen the player keeps moving in the last direction pressed.
#[derive(PartialEq, Eq, Structural, Clone, Copy, Debug)]
pub enum PlayerDirection {
    Stationary,
    Up,
    Down,
    Left,
    Right,
}

/// The direction after one frame's key poll: each pressed movement key in
/// turn overwrites the direction, so a later key in the fixed poll order
/// up, down, left, right wins over an earlier one, and with no key pressed
/// the direction stays.
pub open spec fn spec_direction_after(
    dir: PlayerDirection,
    up: bool,
    down: bool,
    left: bool,
    right: bool,
) -> PlayerDirection {
    if right {
        PlayerDirection::Right
    } else if left {
        PlayerDirection::Left
    } else if down {
        PlayerDirection::Down
    } else if up {
        PlayerDirection::Up
    } else {
        dir
    }
}

/// Whether the sprite is mirrored after one frame's key poll: pressing left
/// mirrors it, pressing right restores it, right winning over left; with
/// neither pressed it stays.
pub open spec fn spec_flip_after(flip_x: bool, left: bool, right: bool) -> bool {
    if right {
        false
    } else if left {
        true
    } else {
        flip_x
    }
}

/// One frame's key poll: takes the player's direction and whether the
/// sprite is mirrored, with one flag per movement key, and returns both
/// updated.
pub fn player_input(
    dir: PlayerDirection,
    flip_x: bool,
    up: bool,
    down: bool,
    left: bool,
    right: bool,
) -> (r: (PlayerDirection, bool))
    ensures
        r.0 == spec_direction_after(dir, up, down, left, right),
        r.1 == spec_flip_after(flip_x, left, right),
{
    let mut new_dir = dir;
    let mut new_flip = flip_x;
    if up {
        new_dir = PlayerDirection::Up;
    }
    if down {
        new_dir = PlayerDirection::Down;
    }
    if left {
        new_dir = PlayerDirection::Left;
        new_flip = true;
    }
    if right {
        new_dir = PlayerDirection::Right;
        new_flip = false;
    }
    (new_dir, new_flip)
}

/// Where one frame's movement puts the player: the step is added along the
/// facing direction's axis, and a stationary player stays put.
pub open spec fn spec_moved(pos: Position, dir: PlayerDirection, step: int) -> Position {
    match dir {
        PlayerDirection::Up => Position { x: pos.x, y: (pos.y + step) as i64 },
        PlayerDirection::Down => Position { x: pos.x, y: (pos.y - step) as i64 },
        PlayerDirection::Right => Position { x: (pos.x + step) as i64, y: pos.y },
        PlayerDirection::Left => Position { x: (pos.x - step) as i64, y: pos.y },
        PlayerDirection::Stationary => pos,
    }
}

/// One frame's movement: the step is this frame's distance, the speed times
/// the frame's duration, in coordinate units. The bounds on the position and
/// the step only keep the additions inside `i64`; a frame of a running game
/// moves a few hundred units.
pub fn player_movement(pos: Position, dir: PlayerDirection, step: i64) -> (r: Position)
    requires
        0 <= step <= COORD_LIMIT,
        pos.in_bounds(),
    ensures
        r == spec_moved(pos, dir, step as int),
{
    match dir {
        PlayerDirection::Up => Position { x: pos.x, y: pos.y + step },
        PlayerDirection::Down => Position { x: pos.x, y: pos.y - step },
        PlayerDirection::Right => Position { x: pos.x + step, y: pos.y },
        PlayerDirection::Left => Position { x: pos.x - step, y: pos.y },
        PlayerDirection::Stationary => pos,
    }
}

/// Where the player stands after the screen wrap: a player past the left or
/// right window edge reappears one sprite length inside the opposite edge,
/// and a player past the playing field's top or bottom (the window edge less
/// the interface bar) reappears one sprite length inside the opposite side
/// of the field.
pub open spec fn spec_wrapped(pos: Position) -> Position {
    let x = if pos.x < -WINDOW_WIDTH / 2 {
        (WINDOW_WIDTH / 2 - SPRITE_SIZE) as i64
    } else if pos.x > WINDOW_WIDTH / 2 {
        (-WINDOW_WIDTH / 2 + SPRITE_SIZE) as i64
    } else {
        pos.x
    };
    let y = if pos.y < -WINDOW_HEIGHT / 2 + UI_BAR_HEIGHT {
        (WINDOW_HEIGHT / 2 - UI_BAR_HEIGHT - SPRITE_SIZE) as i64
    } else if pos.y > WINDOW_HEIGHT / 2 - UI_BAR_HEIGHT {
        (-WINDOW_HEIGHT / 2 + UI_BAR_HEIGHT + SPRITE_SIZE) as i64
    } else {
        pos.y
    };
    Position { x, y }
}

/// Wherever a frame's movement put the player, the screen wrap leaves the
/// player on the field: between the window's left and right edges, and
/// between the interface bars, each edge included.
pub proof fn lemma_wrapped_on_field(pos: Position)
    ensures
        -WINDOW_WIDTH / 2 <= spec_wrapped(pos).x <= WINDOW_WIDTH / 2,
        -WINDOW_HEIGHT / 2 + UI_BAR_HEIGHT <= spec_wrapped(pos).y <= WINDOW_HEIGHT / 2
            - UI_BAR_HEIGHT,
{
}

/// One frame's screen wrap, applied to the player's position after the
/// movement.
pub fn player_screen_wrapping(pos: Position) -> (r: Position)
    ensures
        r == spec_wrapped(pos),
{
    let mut x = pos.x;
    let mut y = pos.y;
    if x < -WINDOW_WIDTH / 2 {
        x = WINDOW_WIDTH / 2 - SPRITE_SIZE;
    } else if x > WINDOW_WIDTH / 2 {
        x = -WINDOW_WIDTH / 2 + SPRITE_SIZE;
    }
    if y < -WINDOW_HEIGHT / 2 + UI_BAR_HEIGHT {
        y = WINDOW_HEIGHT / 2 - UI_BAR_HEIGHT - SPRITE_SIZE;
    } else if y > WINDOW_HEIGHT / 2 - UI_BAR_HEIGHT {
        y = -WINDOW_HEIGHT / 2 + UI_BAR_HEIGHT + SPRITE_SIZE;
    }
    Position { x, y }
}

/// The frame range of the player's walking animation, cycled through on a
/// fixed timer.
pub struct AnimationIndices {
    pub first: usize,
    pub last: usize,
}

impl AnimationIndices {
    /// A frame range runs forward: its first frame does not lie after its
    /// last.
    pub open spec fn wf(&self) -> bool {
        self.first <= self.last
    }

    /// The frame index after one animation tick: the next frame, or the
    /// range's first again once the last has been shown.
    pub fn next_frame(&self, index: usize) -> (r: usize)
        requires
            self.wf(),
            self.first <= index <= self.last,
        ensures
            index == self.last ==> r == self.first,
            index < self.last ==> r == index + 1,
    {
        if index == self.last {
            self.first
        } else {
            index + 1
        }
    }
}

} // verus!
