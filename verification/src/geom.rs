//! Points, displacements and rectangles with fixed-point coordinates.

use vstd::prelude::*;

verus! {

/// A position: a point of document space or of screen space.
#[derive(Clone, Copy, PartialEq, Eq, Debug, Structural)]
pub struct Pos2 {
    pub x: i32,
    pub y: i32,
}

/// A displacement between two positions.
#[derive(Clone, Copy, PartialEq, Eq, Debug, Structural)]
pub struct Vec2 {
    pub x: i32,
    pub y: i32,
}

/// An axis-aligned rectangle of screen space. Screen Y grows downward, so
/// `min` is the top-left corner and `max` the bottom-right one.
#[derive(Clone, Copy, PartialEq, Eq, Debug, Structural)]
pub struct Rect {
    pub min: Pos2,
    pub max: Pos2,
}

/// The position `(x, y)`.
pub fn pos2(x: i32, y: i32) -> (p: Pos2)
    ensures
        p == (Pos2 { x, y }),
{
    Pos2 { x, y }
}

impl Rect {
    /// The smallest rectangle that holds both `a` and `b`.
    pub open spec fn spanning(a: Pos2, b: Pos2) -> Rect {
        Rect {
            min: Pos2 {
                x: if a.x <= b.x { a.x } else { b.x },
                y: if a.y <= b.y { a.y } else { b.y },
            },
            max: Pos2 {
                x: if a.x >= b.x { a.x } else { b.x },
                y: if a.y >= b.y { a.y } else { b.y },
            },
        }
    }

    /// The rectangle grown, where needed, to hold `p`.
    pub open spec fn extended(self, p: Pos2) -> Rect {
        Rect {
            min: Pos2 {
                x: if self.min.x <= p.x { self.min.x } else { p.x },
                y: if self.min.y <= p.y { self.min.y } else { p.y },
            },
            max: Pos2 {
                x: if self.max.x >= p.x { self.max.x } else { p.x },
                y: if self.max.y >= p.y { self.max.y } else { p.y },
            },
        }
    }

    /// `p` lies between the edges, whichever way round the corners are
    /// given.
    pub open spec fn holds(self, p: Pos2) -> bool {
        &&& self.min.x <= p.x <= self.max.x || self.max.x <= p.x <= self.min.x
        &&& self.min.y <= p.y <= self.max.y || self.max.y <= p.y <= self.min.y
    }

    /// The rectangle that holds no point: extending it with a point leaves
    /// that point alone.
    pub open spec fn spec_nothing() -> Rect {
        Rect {
            min: Pos2 { x: i32::MAX, y: i32::MAX },
            max: Pos2 { x: i32::MIN, y: i32::MIN },
        }
    }

    /// Extent along X. Negative when the corners are out of order.
    pub open spec fn spec_width(self) -> int {
        self.max.x - self.min.x
    }

    /// Extent along Y. Negative when the corners are out of order.
    pub open spec fn spec_height(self) -> int {
        self.max.y - self.min.y
    }

    /// An extent is zero, so that no position can be mapped back from the
    /// rectangle.
    pub open spec fn spec_is_degenerate(self) -> bool {
        self.spec_width() == 0 || self.spec_height() == 0
    }

    /// The rectangle that holds no point, to be grown with `extend_with`.
    pub fn nothing() -> (r: Rect)
        ensures
            r == Rect::spec_nothing(),
    {
        Rect {
            min: Pos2 { x: i32::MAX, y: i32::MAX },
            max: Pos2 { x: i32::MIN, y: i32::MIN },
        }
    }

    /// Grows the rectangle, where needed, to hold `p`.
    pub fn extend_with(&mut self, p: Pos2)
        ensures
            *final(self) == old(self).extended(p),
    {
        if p.x < self.min.x {
            self.min.x = p.x;
        }
        if p.y < self.min.y {
            self.min.y = p.y;
        }
        if p.x > self.max.x {
            self.max.x = p.x;
        }
        if p.y > self.max.y {
            self.max.y = p.y;
        }
    }

    /// The X coordinate of the left edge.
    pub fn left(&self) -> (v: i32)
        ensures
            v == self.min.x,
    {
        self.min.x
    }

    /// The X coordinate of the right edge.
    pub fn right(&self) -> (v: i32)
        ensures
            v == self.max.x,
    {
        self.max.x
    }

    /// The Y coordinate of the top edge, the smaller one.
    pub fn top(&self) -> (v: i32)
        ensures
            v == self.min.y,
    {
        self.min.y
    }

    /// The Y coordinate of the bottom edge, the larger one.
    pub fn bottom(&self) -> (v: i32)
        ensures
            v == self.max.y,
    {
        self.max.y
    }

    /// Extent along X, exact for any two corners.
    pub fn width(&self) -> (w: i64)
        ensures
            w == self.spec_width(),
    {
        self.max.x as i64 - self.min.x as i64
    }

    /// Extent along Y, exact for any two corners.
    pub fn height(&self) -> (h: i64)
        ensures
            h == self.spec_height(),
    {
        self.max.y as i64 - self.min.y as i64
    }

    /// Whether an extent is zero.
    pub fn is_degenerate(&self) -> (b: bool)
        ensures
            b == self.spec_is_degenerate(),
    {
        self.width() == 0 || self.height() == 0
    }
}

/// Extending the empty rectangle with two points gives the smallest rectangle
/// that holds both.
pub proof fn lemma_nothing_extended_twice(a: Pos2, b: Pos2)
    ensures
        Rect::spec_nothing().extended(a).extended(b) == Rect::spanning(a, b),
{
}

} // verus!
