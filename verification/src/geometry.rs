//! Positions and bounding volumes, and the circle-against-box overlap test
//! that decides when the player has picked up a stick.

use crate::config::{PLAYER_HALF_EXTENT, STICK_RADIUS};
use vstd::prelude::*;

verus! {

/// Coordinates handed to the collision test stay within this magnitude, on
/// each axis, so that the squared distances fit in `i64`. It is far beyond
/// the window.
pub const COORD_LIMIT: i64 = 100_000_000;

/// A point of the playing field, in coordinate units (thousandths of a
/// screen unit), with the origin at the window's centre.
#[derive(PartialEq, Eq, Structural, Clone, Copy, Debug)]
pub struct Position {
    pub x: i64,
    pub y: i64,
}

impl Position {
    /// Both coordinates lie within `COORD_LIMIT`.
    pub open spec fn in_bounds(&self) -> bool {
        -COORD_LIMIT <= self.x <= COORD_LIMIT && -COORD_LIMIT <= self.y <= COORD_LIMIT
    }
}

/// A circle around a centre: a stick's bounding volume.
#[derive(PartialEq, Eq, Structural, Clone, Copy, Debug)]
pub struct BoundingCircle {
    pub center: Position,
    pub radius: i64,
}

impl BoundingCircle {
    /// The centre is in bounds and the radius lies in `[0, COORD_LIMIT]`.
    pub open spec fn wf(&self) -> bool {
        self.center.in_bounds() && 0 <= self.radius <= COORD_LIMIT
    }
}

/// An axis-aligned box around a centre: the player's bounding volume.
#[derive(PartialEq, Eq, Structural, Clone, Copy, Debug)]
pub struct BoundingBox {
    pub center: Position,
    pub half_x: i64,
    pub half_y: i64,
}

impl BoundingBox {
    /// The centre is in bounds and the half extents lie in `[0, COORD_LIMIT]`.
    pub open spec fn wf(&self) -> bool {
        self.center.in_bounds() && 0 <= self.half_x <= COORD_LIMIT && 0 <= self.half_y
            <= COORD_LIMIT
    }
}

/// `v` pushed into the interval `[lo, hi]`.
pub open spec fn spec_clamp(v: int, lo: int, hi: int) -> int {
    if v < lo {
        lo
    } else if v > hi {
        hi
    } else {
        v
    }
}

/// Whether a circle and a box overlap: the box's point nearest the circle's
/// centre lies within the radius. A circle that merely touches the box
/// counts as overlapping.
pub open spec fn spec_intersects(circle: BoundingCircle, bbox: BoundingBox) -> bool {
    let px = spec_clamp(
        circle.center.x as int,
        bbox.center.x - bbox.half_x,
        bbox.center.x + bbox.half_x,
    );
    let py = spec_clamp(
        circle.center.y as int,
        bbox.center.y - bbox.half_y,
        bbox.center.y + bbox.half_y,
    );
    let dx = circle.center.x - px;
    let dy = circle.center.y - py;
    dx * dx + dy * dy <= circle.radius * circle.radius
}

fn clamp(v: i64, lo: i64, hi: i64) -> (r: i64)
    requires
        lo <= hi,
    ensures
        r == spec_clamp(v as int, lo as int, hi as int),
{
    if v < lo {
        lo
    } else if v > hi {
        hi
    } else {
        v
    }
}

/// The overlap test itself: true exactly when the circle and the box
/// overlap.
pub fn is_colliding(circle: BoundingCircle, bbox: BoundingBox) -> (r: bool)
    requires
        circle.wf(),
        bbox.wf(),
    ensures
        r == spec_intersects(circle, bbox),
{
    let lo_x = bbox.center.x - bbox.half_x;
    let hi_x = bbox.center.x + bbox.half_x;
    let lo_y = bbox.center.y - bbox.half_y;
    let hi_y = bbox.center.y + bbox.half_y;
    let px = clamp(circle.center.x, lo_x, hi_x);
    let py = clamp(circle.center.y, lo_y, hi_y);
    let dx = circle.center.x - px;
    let dy = circle.center.y - py;
    proof {
        assert(dx * dx <= 90_000_000_000_000_000) by (nonlinear_arith)
            requires
                -300_000_000 <= dx <= 300_000_000,
        ;
        assert(dy * dy <= 90_000_000_000_000_000) by (nonlinear_arith)
            requires
                -300_000_000 <= dy <= 300_000_000,
        ;
        assert(0 <= dx * dx) by (nonlinear_arith);
        assert(0 <= dy * dy) by (nonlinear_arith);
        assert(circle.radius * circle.radius <= 10_000_000_000_000_000) by (nonlinear_arith)
            requires
                0 <= circle.radius <= 100_000_000,
        ;
        assert(0 <= circle.radius * circle.radius) by (nonlinear_arith);
    }
    dx * dx + dy * dy <= circle.radius * circle.radius
}

/// The bounding volume of a stick lying at `pos`.
pub open spec fn spec_stick_circle(pos: Position) -> BoundingCircle {
    BoundingCircle { center: pos, radius: STICK_RADIUS }
}

/// The bounding volume of the player standing at `pos`.
pub open spec fn spec_player_box(pos: Position) -> BoundingBox {
    BoundingBox { center: pos, half_x: PLAYER_HALF_EXTENT, half_y: PLAYER_HALF_EXTENT }
}

/// Whether the player standing at `player` picks up a stick lying at
/// `stick`.
pub open spec fn spec_stick_hit(player: Position, stick: Position) -> bool {
    spec_intersects(spec_stick_circle(stick), spec_player_box(player))
}

/// One frame's collision pass: which of the live sticks the player overlaps.
/// The result lists their indices in ascending order, each exactly once.
pub fn player_collision(player: Position, sticks: &Vec<Position>) -> (hits: Vec<usize>)
    requires
        player.in_bounds(),
        forall|i: int| 0 <= i < sticks@.len() ==> sticks@[i].in_bounds(),
    ensures
        forall|k: int| 0 <= k < hits@.len() ==> hits@[k] < sticks@.len(),
        forall|k1: int, k2: int|
            0 <= k1 < k2 < hits@.len() ==> hits@[k1] < hits@[k2],
        forall|i: int|
            0 <= i < sticks@.len() ==> (hits@.contains(i as usize) <==> spec_stick_hit(
                player,
                sticks@[i],
            )),
{
    let mut hits: Vec<usize> = Vec::new();
    let mut i: usize = 0;
    while i < sticks.len()
        invariant
            i <= sticks@.len(),
            player.in_bounds(),
            forall|j: int| 0 <= j < sticks@.len() ==> sticks@[j].in_bounds(),
            forall|k: int| 0 <= k < hits@.len() ==> hits@[k] < i,
            forall|k1: int, k2: int|
                0 <= k1 < k2 < hits@.len() ==> hits@[k1] < hits@[k2],
            forall|j: int|
                0 <= j < i ==> (hits@.contains(j as usize) <==> spec_stick_hit(
                    player,
                    sticks@[j],
                )),
        decreases sticks@.len() - i,
    {
        let ghost old_hits = hits@;
        let stick_circle = BoundingCircle { center: sticks[i], radius: STICK_RADIUS };
        let player_box = BoundingBox {
            center: player,
            half_x: PLAYER_HALF_EXTENT,
            half_y: PLAYER_HALF_EXTENT,
        };
        if is_colliding(stick_circle, player_box) {
            hits.push(i);
        }
        proof {
            assert forall|j: int| 0 <= j < i + 1 implies (hits@.contains(j as usize)
                <==> spec_stick_hit(player, sticks@[j])) by {
                if hits@ == old_hits.push(i) {
                    if j < i {
                        if old_hits.contains(j as usize) {
                            let k = choose|k: int|
                                0 <= k < old_hits.len() && old_hits[k] == j as usize;
                            assert(hits@[k] == j as usize);
                        }
                        if hits@.contains(j as usize) {
                            let k = choose|k: int| 0 <= k < hits@.len() && hits@[k] == j as usize;
                            assert(old_hits[k] == j as usize);
                        }
                    } else {
                        assert(hits@[hits@.len() - 1] == i as usize);
                    }
                } else {
                    if j == i && hits@.contains(j as usize) {
                        let k = choose|k: int| 0 <= k < hits@.len() && hits@[k] == j as usize;
                    }
                }
            }
        }
        i = i + 1;
    }
    hits
}

} // verus!
