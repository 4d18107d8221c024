//! Axis-aligned rectangles in pixel space and the half-open intersection
//! test that collision resolution is built on.

use vstd::prelude::*;

verus! {

/// Axis-aligned rectangle: top-left corner plus width and height.
#[derive(Clone, Copy, Debug, PartialEq, Eq, Structural)]
pub struct Rect {
    pub x: i32,
    pub y: i32,
    pub w: u32,
    pub h: u32,
}

/// Two rectangles overlap when their half-open coordinate ranges intersect on
/// both axes.  Rectangles that merely touch along an edge do not overlap, and
/// a rectangle with zero width or height overlaps nothing.
pub open spec fn overlap(a: Rect, b: Rect) -> bool {
    &&& a.w > 0
    &&& a.h > 0
    &&& b.w > 0
    &&& b.h > 0
    &&& a.x < b.x + b.w
    &&& b.x < a.x + a.w
    &&& a.y < b.y + b.h
    &&& b.y < a.y + a.h
}

impl Rect {
    pub fn new(x: i32, y: i32, w: u32, h: u32) -> (r: Rect)
        ensures
            r == (Rect { x, y, w, h }),
    {
        Rect { x, y, w, h }
    }

    /// Half-open axis-aligned intersection test; touching edges do not count.
    pub fn has_intersection(&self, other: &Rect) -> (r: bool)
        ensures
            r == overlap(*self, *other),
    {
        self.w > 0 && self.h > 0 && other.w > 0 && other.h > 0
            && (self.x as i64) < (other.x as i64) + (other.w as i64)
            && (other.x as i64) < (self.x as i64) + (self.w as i64)
            && (self.y as i64) < (other.y as i64) + (other.h as i64)
            && (other.y as i64) < (self.y as i64) + (self.h as i64)
    }
}

} // verus!
