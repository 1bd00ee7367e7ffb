//! The window of document space that is on screen.

use vstd::prelude::*;
use crate::arith::div_floor;
use crate::arith::fits_i32;
use crate::arith::floor_div;
use crate::error::TransformError;
use crate::geom::Pos2;
use crate::geom::Vec2;

verus! {

/// The visible region of the document: an axis-aligned rectangle given by two
/// opposite corners, each as `[x, y]`. Document Y grows upward.
///
/// Any two corners can be stored; the bounds are usable for mapping only
/// while `is_valid` holds.
#[derive(Clone, Copy, PartialEq, Eq, Debug)]
pub struct DocBounds {
    pub min: [i32; 2],
    pub max: [i32; 2],
}

impl DocBounds {
    /// Extent along X. Zero or negative when the corners are out of order.
    pub open spec fn spec_width(self) -> int {
        self.max[0] - self.min[0]
    }

    /// Extent along Y. Zero or negative when the corners are out of order.
    pub open spec fn spec_height(self) -> int {
        self.max[1] - self.min[1]
    }

    /// Both extents are strictly positive.
    pub open spec fn spec_is_valid(self) -> bool {
        self.spec_width() > 0 && self.spec_height() > 0
    }

    /// `p` lies between the corners.
    pub open spec fn holds(self, p: Pos2) -> bool {
        &&& self.min[0] <= p.x <= self.max[0]
        &&& self.min[1] <= p.y <= self.max[1]
    }

    /// Both corners stay within the coordinate range when moved by
    /// `(dx, dy)`.
    pub open spec fn can_shift(self, dx: int, dy: int) -> bool {
        &&& fits_i32(self.min[0] + dx)
        &&& fits_i32(self.max[0] + dx)
        &&& fits_i32(self.min[1] + dy)
        &&& fits_i32(self.max[1] + dy)
    }

    /// `self` is `from` with both corners moved by exactly `(dx, dy)`.
    pub open spec fn is_shift_of(self, from: DocBounds, dx: int, dy: int) -> bool {
        &&& self.min[0] == from.min[0] + dx
        &&& self.max[0] == from.max[0] + dx
        &&& self.min[1] == from.min[1] + dy
        &&& self.max[1] == from.max[1] + dy
    }

    /// The first corner, as `[x, y]`: the least coordinates of valid bounds.
    pub fn min(&self) -> (r: [i32; 2])
        ensures
            r == self.min,
    {
        self.min
    }

    /// The second corner, as `[x, y]`: the greatest coordinates of valid
    /// bounds.
    pub fn max(&self) -> (r: [i32; 2])
        ensures
            r == self.max,
    {
        self.max
    }

    /// Whether both extents are strictly positive. Only valid bounds can be
    /// mapped with.
    pub fn is_valid(&self) -> (b: bool)
        ensures
            b == self.spec_is_valid(),
    {
        self.width() > 0 && self.height() > 0
    }

    /// Extent along X, exact for any two corners.
    pub fn width(&self) -> (w: i64)
        ensures
            w == self.spec_width(),
    {
        self.max[0] as i64 - self.min[0] as i64
    }

    /// Extent along Y, exact for any two corners.
    pub fn height(&self) -> (h: i64)
        ensures
            h == self.spec_height(),
    {
        self.max[1] as i64 - self.min[1] as i64
    }

    /// The midpoint of the two corners, each coordinate rounded down.
    pub fn center(&self) -> (c: Vec2)
        ensures
            c.x == floor_div(self.min[0] + self.max[0], 2),
            c.y == floor_div(self.min[1] + self.max[1], 2),
    {
        let x: i128 = div_floor(self.min[0] as i128 + self.max[0] as i128, 2);
        let y: i128 = div_floor(self.min[1] as i128 + self.max[1] as i128, 2);
        Vec2 { x: x as i32, y: y as i32 }
    }

    /// Moves both corners by `delta` along X. Refused, with the bounds left
    /// as they were, when a corner would leave the coordinate range.
    pub fn translate_x(&mut self, delta: i32) -> (r: Result<(), TransformError>)
        ensures
            old(self).can_shift(delta as int, 0) ==> r == Ok::<(), TransformError>(())
                && final(self).is_shift_of(*old(self), delta as int, 0),
            !old(self).can_shift(delta as int, 0) ==> r == Err::<(), TransformError>(
                TransformError::OutOfRange,
            ) && *final(self) == *old(self),
            final(self).spec_width() == old(self).spec_width(),
            final(self).spec_height() == old(self).spec_height(),
    {
        let lo: i64 = self.min[0] as i64 + delta as i64;
        let hi: i64 = self.max[0] as i64 + delta as i64;
        if lo < i32::MIN as i64 || lo > i32::MAX as i64 || hi < i32::MIN as i64 || hi
            > i32::MAX as i64 {
            return Err(TransformError::OutOfRange);
        }
        self.min[0] = lo as i32;
        self.max[0] = hi as i32;
        Ok(())
    }

    /// Moves both corners by `delta` along Y. Refused, with the bounds left
    /// as they were, when a corner would leave the coordinate range.
    pub fn translate_y(&mut self, delta: i32) -> (r: Result<(), TransformError>)
        ensures
            old(self).can_shift(0, delta as int) ==> r == Ok::<(), TransformError>(())
                && final(self).is_shift_of(*old(self), 0, delta as int),
            !old(self).can_shift(0, delta as int) ==> r == Err::<(), TransformError>(
                TransformError::OutOfRange,
            ) && *final(self) == *old(self),
            final(self).spec_width() == old(self).spec_width(),
            final(self).spec_height() == old(self).spec_height(),
    {
        let lo: i64 = self.min[1] as i64 + delta as i64;
        let hi: i64 = self.max[1] as i64 + delta as i64;
        if lo < i32::MIN as i64 || lo > i32::MAX as i64 || hi < i32::MIN as i64 || hi
            > i32::MAX as i64 {
            return Err(TransformError::OutOfRange);
        }
        self.min[1] = lo as i32;
        self.max[1] = hi as i32;
        Ok(())
    }

    /// Moves both corners by `delta`: the rectangle keeps its shape and only
    /// its position changes. Refused as a whole, with the bounds left as they
    /// were, when a corner would leave the coordinate range on either axis.
    pub fn translate(&mut self, delta: Vec2) -> (r: Result<(), TransformError>)
        ensures
            old(self).can_shift(delta.x as int, delta.y as int) ==> r == Ok::<(), TransformError>(
                (),
            ) && final(self).is_shift_of(*old(self), delta.x as int, delta.y as int),
            !old(self).can_shift(delta.x as int, delta.y as int) ==> r == Err::<
                (),
                TransformError,
            >(TransformError::OutOfRange) && *final(self) == *old(self),
            final(self).spec_width() == old(self).spec_width(),
            final(self).spec_height() == old(self).spec_height(),
    {
        let mut moved: DocBounds = *self;
        match moved.translate_x(delta.x) {
            Ok(()) => {},
            Err(e) => {
                return Err(e);
            },
        }
        match moved.translate_y(delta.y) {
            Ok(()) => {},
            Err(e) => {
                return Err(e);
            },
        }
        *self = moved;
        Ok(())
    }
}

} // verus!
