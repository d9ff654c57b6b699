//! 2D integer geometry primitives: a coordinate, an extent and a
//! displacement, kept as distinct types so that mixing them up is a type
//! error.

use vstd::prelude::*;

verus! {

/// A 2D integer coordinate.
#[derive(Clone, Copy, Debug, PartialEq, Eq, Structural)]
pub struct Point {
    pub x: i32,
    pub y: i32,
}

/// An extent: a width and a height. Non-negative in intended use.
#[derive(Clone, Copy, Debug, PartialEq, Eq, Structural)]
pub struct Size {
    pub width: i32,
    pub height: i32,
}

/// A displacement vector, distinct from `Point`: adding two points is
/// meaningless, adding a point and an offset is not.
#[derive(Clone, Copy, Debug, PartialEq, Eq, Structural)]
pub struct Offset {
    pub dx: i32,
    pub dy: i32,
}

impl Point {
    pub fn new(x: i32, y: i32) -> (p: Point)
        ensures
            p.x == x && p.y == y,
    {
        Point { x, y }
    }

    /// Translate the point by an offset.
    pub fn translate(self, o: Offset) -> (p: Point)
        requires
            i32::MIN <= self.x + o.dx <= i32::MAX,
            i32::MIN <= self.y + o.dy <= i32::MAX,
        ensures
            p.x == self.x + o.dx,
            p.y == self.y + o.dy,
    {
        Point { x: self.x + o.dx, y: self.y + o.dy }
    }

    /// Translate the point against an offset.
    pub fn translate_back(self, o: Offset) -> (p: Point)
        requires
            i32::MIN <= self.x - o.dx <= i32::MAX,
            i32::MIN <= self.y - o.dy <= i32::MAX,
        ensures
            p.x == self.x - o.dx,
            p.y == self.y - o.dy,
    {
        Point { x: self.x - o.dx, y: self.y - o.dy }
    }
}

impl Default for Point {
    fn default() -> (p: Point)
        ensures
            p.x == 0 && p.y == 0,
    {
        Point { x: 0, y: 0 }
    }
}

impl Size {
    pub fn new(width: i32, height: i32) -> (s: Size)
        ensures
            s.width == width && s.height == height,
    {
        Size { width, height }
    }

    /// Grow both dimensions by the same amount.
    pub fn add_scalar(self, k: i32) -> (s: Size)
        requires
            i32::MIN <= self.width + k <= i32::MAX,
            i32::MIN <= self.height + k <= i32::MAX,
        ensures
            s.width == self.width + k,
            s.height == self.height + k,
    {
        Size { width: self.width + k, height: self.height + k }
    }

    /// Shrink both dimensions by the same amount.
    pub fn sub_scalar(self, k: i32) -> (s: Size)
        requires
            i32::MIN <= self.width - k <= i32::MAX,
            i32::MIN <= self.height - k <= i32::MAX,
        ensures
            s.width == self.width - k,
            s.height == self.height - k,
    {
        Size { width: self.width - k, height: self.height - k }
    }
}

impl Default for Size {
    fn default() -> (s: Size)
        ensures
            s.width == 0 && s.height == 0,
    {
        Size { width: 0, height: 0 }
    }
}

impl Offset {
    pub fn new(dx: i32, dy: i32) -> (o: Offset)
        ensures
            o.dx == dx && o.dy == dy,
    {
        Offset { dx, dy }
    }

    /// The opposite displacement.
    pub fn neg(self) -> (o: Offset)
        requires
            self.dx != i32::MIN,
            self.dy != i32::MIN,
        ensures
            o.dx == -self.dx,
            o.dy == -self.dy,
    {
        Offset { dx: -self.dx, dy: -self.dy }
    }

    /// Componentwise difference of two displacements.
    pub fn minus(self, o: Offset) -> (r: Offset)
        requires
            i32::MIN <= self.dx - o.dx <= i32::MAX,
            i32::MIN <= self.dy - o.dy <= i32::MAX,
        ensures
            r.dx == self.dx - o.dx,
            r.dy == self.dy - o.dy,
    {
        Offset { dx: self.dx - o.dx, dy: self.dy - o.dy }
    }
}

impl Default for Offset {
    fn default() -> (o: Offset)
        ensures
            o.dx == 0 && o.dy == 0,
    {
        Offset { dx: 0, dy: 0 }
    }
}

} // verus!
