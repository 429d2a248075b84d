//! Geometry primitives: points, sizes and axis-aligned rectangles.

use vstd::prelude::*;

verus! {

/// The smaller of two widths or heights.
pub open spec fn min_u32(a: u32, b: u32) -> u32 {
    if a <= b {
        a
    } else {
        b
    }
}

/// The larger of two widths or heights.
pub open spec fn max_u32(a: u32, b: u32) -> u32 {
    if a >= b {
        a
    } else {
        b
    }
}

/// A mathematical value clamped into the interval `[lo, hi]`.
pub open spec fn clamp_int(v: int, lo: int, hi: int) -> int {
    if v <= lo {
        lo
    } else if v >= hi {
        hi
    } else {
        v
    }
}

/// A 2D position, used for cursor positions and layout offsets.
#[derive(Clone, Copy, Debug, PartialEq, Eq, Structural)]
pub struct Point {
    pub x: u32,
    pub y: u32,
}

impl Point {
    /// Creates a point from its coordinates.
    pub fn new(x: u32, y: u32) -> (p: Point)
        ensures
            p == (Point { x, y }),
    {
        Point { x, y }
    }
}

/// An amount of space along both axes.
#[derive(Clone, Copy, Debug, PartialEq, Eq, Structural)]
pub struct Size {
    pub width: u32,
    pub height: u32,
}

impl Size {
    /// Creates a size from a width and a height.
    pub fn new(width: u32, height: u32) -> (s: Size)
        ensures
            s == (Size { width, height }),
    {
        Size { width, height }
    }

    /// The size grown by `padding` units on every side; each axis gains
    /// `2 * padding`, saturating at the largest representable size.
    pub open spec fn spec_pad(self, padding: u16) -> Size {
        let extra = (2 * (padding as u32)) as u32;
        Size {
            width: self.width.saturating_add(extra),
            height: self.height.saturating_add(extra),
        }
    }

    /// Grows the size by `padding` units on every side.
    pub fn pad(self, padding: u16) -> (r: Size)
        ensures
            r == self.spec_pad(padding),
    {
        let extra: u32 = 2 * (padding as u32);
        Size { width: self.width.saturating_add(extra), height: self.height.saturating_add(extra) }
    }
}

/// An axis-aligned rectangle: a position and a size.
#[derive(Clone, Copy, Debug, PartialEq, Eq, Structural)]
pub struct Rectangle {
    pub x: u32,
    pub y: u32,
    pub width: u32,
    pub height: u32,
}

impl Rectangle {
    /// Creates a rectangle from its position and size.
    pub fn new(x: u32, y: u32, width: u32, height: u32) -> (r: Rectangle)
        ensures
            r == (Rectangle { x, y, width, height }),
    {
        Rectangle { x, y, width, height }
    }

    /// Whether `point` lies inside the rectangle. The left and top edges are
    /// inside; the right and bottom edges are outside.
    pub open spec fn spec_contains(self, point: Point) -> bool {
        &&& self.x <= point.x < self.x + self.width
        &&& self.y <= point.y < self.y + self.height
    }

    /// Decides whether `point` lies inside the rectangle.
    pub fn contains(&self, point: Point) -> (r: bool)
        ensures
            r == self.spec_contains(point),
    {
        point.x >= self.x && point.x - self.x < self.width && point.y >= self.y && point.y
            - self.y < self.height
    }
}

} // verus!
