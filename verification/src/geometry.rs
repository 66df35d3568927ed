//! Plane vectors in fixed-point milli-pixel units, and the axis-aligned
//! rectangle overlap test used by the hit-detection systems.

use vstd::prelude::*;

verus! {

/// Coordinates may not stray further than this from the origin
/// (one million pixels), which keeps every sum in range.
pub const COORD_LIMIT: i64 = 1_000_000_000;

/// A point or extent in the plane, in milli-pixels.
#[derive(Clone, Copy, PartialEq, Eq, Structural, Debug)]
pub struct Vec2i {
    pub x: i64,
    pub y: i64,
}

impl Vec2i {
    pub fn new(x: i64, y: i64) -> (v: Vec2i)
        ensures
            v.x == x,
            v.y == y,
    {
        Vec2i { x, y }
    }
}

/// Both coordinates lie within the world bound.
pub open spec fn in_world(v: Vec2i) -> bool {
    &&& -COORD_LIMIT <= v.x <= COORD_LIMIT
    &&& -COORD_LIMIT <= v.y <= COORD_LIMIT
}

/// Both extents are non-negative and within the world bound.
pub open spec fn valid_size(v: Vec2i) -> bool {
    &&& 0 <= v.x <= COORD_LIMIT
    &&& 0 <= v.y <= COORD_LIMIT
}

/// Two axis-aligned rectangles, each given by its centre and its full
/// extents, overlap with positive area: on each axis, twice the distance
/// of the centres is less than the sum of the extents.
pub open spec fn rects_overlap(a_pos: Vec2i, a_size: Vec2i, b_pos: Vec2i, b_size: Vec2i) -> bool {
    &&& 2 * (a_pos.x - b_pos.x) < a_size.x + b_size.x
    &&& 2 * (b_pos.x - a_pos.x) < a_size.x + b_size.x
    &&& 2 * (a_pos.y - b_pos.y) < a_size.y + b_size.y
    &&& 2 * (b_pos.y - a_pos.y) < a_size.y + b_size.y
}

/// Decides whether two centred rectangles overlap.
pub fn aabb_overlap(a_pos: Vec2i, a_size: Vec2i, b_pos: Vec2i, b_size: Vec2i) -> (r: bool)
    requires
        in_world(a_pos),
        in_world(b_pos),
        valid_size(a_size),
        valid_size(b_size),
    ensures
        r == rects_overlap(a_pos, a_size, b_pos, b_size),
{
    let dx: i64 = a_pos.x - b_pos.x;
    let dy: i64 = a_pos.y - b_pos.y;
    let span_x: i64 = a_size.x + b_size.x;
    let span_y: i64 = a_size.y + b_size.y;
    2 * dx < span_x && 2 * (-dx) < span_x && 2 * dy < span_y && 2 * (-dy) < span_y
}

} // verus!
