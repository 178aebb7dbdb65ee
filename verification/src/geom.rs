//! Geometry value types: integer 2-D points and axis-aligned rectangles.
//!
//! Coordinates are whole device pixels. A rectangle is stored as an origin
//! plus a size; containment is half-open on both axes, so adjacent
//! rectangles never both claim a boundary pixel.

use vstd::prelude::*;

verus! {

/// A position in integer device pixels.
#[derive(Copy, Clone, PartialEq, Eq, Structural, Debug)]
pub struct Point {
    pub x: i32,
    pub y: i32,
}

impl Point {
    pub fn new(x: i32, y: i32) -> (p: Point)
        ensures
            p == (Point { x, y }),
    {
        Point { x, y }
    }
}

/// An axis-aligned rectangle given by its origin and its size.
#[derive(Copy, Clone, PartialEq, Eq, Structural, Debug)]
pub struct Rect {
    pub pos: Point,
    pub size: Point,
}

impl Rect {
    /// The left edge, included by `contains`.
    pub open spec fn left(self) -> int {
        self.pos.x as int
    }

    /// The top edge, included by `contains`.
    pub open spec fn top(self) -> int {
        self.pos.y as int
    }

    /// The right edge, excluded by `contains`.
    pub open spec fn right(self) -> int {
        self.pos.x + self.size.x
    }

    /// The bottom edge, excluded by `contains`.
    pub open spec fn bottom(self) -> int {
        self.pos.y + self.size.y
    }

    /// Half-open containment: `left <= x < right` and `top <= y < bottom`.
    pub open spec fn spec_contains(self, point: Point) -> bool {
        self.left() <= point.x < self.right() && self.top() <= point.y < self.bottom()
    }

    pub fn new(x: i32, y: i32, width: i32, height: i32) -> (r: Rect)
        ensures
            r == (Rect { pos: Point { x, y }, size: Point { x: width, y: height } }),
    {
        Rect { pos: Point { x, y }, size: Point { x: width, y: height } }
    }

    /// Whether `point` lies inside this rectangle, half-open on both axes.
    pub fn contains(&self, point: Point) -> (r: bool)
        ensures
            r == self.spec_contains(point),
    {
        let px: i64 = point.x as i64;
        let py: i64 = point.y as i64;
        let left: i64 = self.pos.x as i64;
        let top: i64 = self.pos.y as i64;
        let right: i64 = left + self.size.x as i64;
        let bottom: i64 = top + self.size.y as i64;
        px >= left && px < right && py >= top && py < bottom
    }
}

} // verus!
