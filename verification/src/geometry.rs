//! Integer screen geometry: points and axis-aligned rectangles.

use vstd::prelude::*;

verus! {

/// A position on the screen.
#[derive(Clone, Copy, Debug, PartialEq, Eq, Structural)]
pub struct Point {
    pub x: i32,
    pub y: i32,
}

/// An axis-aligned rectangle, given by its top-left corner and its extent.
#[derive(Clone, Copy, Debug, PartialEq, Eq, Structural)]
pub struct Rect {
    pub x: i32,
    pub y: i32,
    pub width: i32,
    pub height: i32,
}

impl Rect {
    /// Whether `p` lies inside the rectangle. The left and top edges belong
    /// to it, the right and bottom edges do not, so a rectangle without
    /// positive extent holds no point.
    pub open spec fn covers(self, p: Point) -> bool {
        &&& self.x <= p.x < self.x + self.width
        &&& self.y <= p.y < self.y + self.height
    }

    /// Tests whether `p` lies inside the rectangle.
    pub fn contains(&self, p: Point) -> (hit: bool)
        ensures
            hit == self.covers(p),
    {
        let right: i64 = self.x as i64 + self.width as i64;
        let bottom: i64 = self.y as i64 + self.height as i64;
        p.x >= self.x && p.y >= self.y && (p.x as i64) < right && (p.y as i64) < bottom
    }

    /// Builds the rectangle of the given extent around the centre `(cx, cy)`.
    /// An odd extent puts the spare unit on the right or at the bottom.
    pub fn with_center(cx: i32, cy: i32, width: i32, height: i32) -> (r: Rect)
        requires
            0 <= width,
            0 <= height,
            i32::MIN <= cx - width / 2,
            i32::MIN <= cy - height / 2,
        ensures
            r.x == cx - width / 2,
            r.y == cy - height / 2,
            r.width == width,
            r.height == height,
    {
        Rect { x: cx - width / 2, y: cy - height / 2, width, height }
    }
}

} // verus!
