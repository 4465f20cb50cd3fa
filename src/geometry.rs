//! Axis-aligned boxes and the collision test between them.

use vstd::prelude::*;
use crate::SPRITE_SIZE;

verus! {

/// An axis-aligned box; `x..x_end` and `y..y_end` are its extents.
#[derive(Clone, Copy, Debug, PartialEq, Eq, Structural)]
pub struct BBox {
    pub x: i32,
    pub y: i32,
    pub x_end: i32,
    pub y_end: i32,
}

/// `v` lies in the half-open range `[lo, hi)`.
pub open spec fn within(v: int, lo: int, hi: int) -> bool {
    lo <= v < hi
}

/// On one axis: the start or the end of `[s, e]` lies in `[bs, be)`.
pub open spec fn edge_inside(s: int, e: int, bs: int, be: int) -> bool {
    within(s, bs, be) || within(e, bs, be)
}

impl BBox {
    /// The collision test: on each axis, one of this box's own edges lies
    /// in the other box's half-open range. Only this box's edges are
    /// tested, so a box that `b` encloses with room to spare on an axis is
    /// not reported.
    pub open spec fn hits(self, b: BBox) -> bool {
        edge_inside(self.x as int, self.x_end as int, b.x as int, b.x_end as int)
            && edge_inside(self.y as int, self.y_end as int, b.y as int, b.y_end as int)
    }

    /// Whether this box hits `b`, in the sense of [`BBox::hits`].
    pub fn is_hit(&self, b: &BBox) -> (r: bool)
        ensures
            r == self.hits(*b),
    {
        let x_start_inside = self.x >= b.x && self.x < b.x_end;
        let x_end_inside = self.x_end >= b.x && self.x_end < b.x_end;
        let x_inside = x_start_inside || x_end_inside;

        let y_start_inside = self.y >= b.y && self.y < b.y_end;
        let y_end_inside = self.y_end >= b.y && self.y_end < b.y_end;
        let y_inside = y_start_inside || y_end_inside;

        x_inside && y_inside
    }
}

/// Screen column of a world column given in sprites.
pub fn screen_x(world_x: i32) -> (r: i32)
    requires
        i32::MIN <= world_x * SPRITE_SIZE <= i32::MAX,
    ensures
        r == world_x * SPRITE_SIZE,
{
    world_x * SPRITE_SIZE
}

/// Screen row of a world row given in sprites.
pub fn screen_y(world_y: i32) -> (r: i32)
    requires
        i32::MIN <= world_y * SPRITE_SIZE <= i32::MAX,
    ensures
        r == world_y * SPRITE_SIZE,
{
    world_y * SPRITE_SIZE
}

} // verus!
