//! Where a freshly collected stick's replacement appears: at a random point
//! of the playing field, a margin away from its edges.

use crate::config::{SPAWN_MARGIN, UI_BAR_HEIGHT, WINDOW_HEIGHT, WINDOW_WIDTH};
use crate::geometry::Position;
use rand::Rng;
use vstd::prelude::*;

verus! {

/// The area a new stick may appear in: within the window less the spawn
/// margin on the left and right, and less the interface bars and the spawn
/// margin above and below. The right and upper edges are excluded.
pub open spec fn in_spawn_area(p: Position) -> bool {
    -WINDOW_WIDTH / 2 + SPAWN_MARGIN <= p.x < WINDOW_WIDTH / 2 - SPAWN_MARGIN
        && -WINDOW_HEIGHT / 2 + SPAWN_MARGIN + UI_BAR_HEIGHT <= p.y < WINDOW_HEIGHT / 2
        - SPAWN_MARGIN - UI_BAR_HEIGHT
}

/// Relies on rand::Rng::gen_range over the half-open range `lo..hi`, on the
/// thread-local generator of rand::thread_rng: it returns a value of the
/// range, and panics only on an empty one.
#[verifier::external_body]
fn random_in_range(lo: i64, hi: i64) -> (r: i64)
    requires
        lo < hi,
    ensures
        lo <= r < hi,
{
    rand::thread_rng().gen_range(lo..hi)
}

/// A random point for the next stick, drawn from the spawn area.
pub fn new_stick_position() -> (p: Position)
    ensures
        in_spawn_area(p),
        p.in_bounds(),
{
    let x = random_in_range(-WINDOW_WIDTH / 2 + SPAWN_MARGIN, WINDOW_WIDTH / 2 - SPAWN_MARGIN);
    let y = random_in_range(
        -WINDOW_HEIGHT / 2 + SPAWN_MARGIN + UI_BAR_HEIGHT,
        WINDOW_HEIGHT / 2 - SPAWN_MARGIN - UI_BAR_HEIGHT,
    );
    Position { x, y }
}

} // verus!
