//! The mapping between document space and screen space.

use vstd::prelude::*;
use crate::arith::fits_i32;
use crate::arith::floor_div;
use crate::arith::remap;
use crate::arith::spec_remap;
use crate::bounds::DocBounds;
use crate::error::TransformError;
use crate::geom::Pos2;
use crate::geom::Rect;
use crate::geom::Vec2;
use crate::geom::lemma_nothing_extended_twice;
use crate::ratio::Ratio;

verus! {

/// A screen rectangle paired with the document bounds that are drawn into
/// it. The left edge of the bounds lands on the left edge of the frame and
/// the right edge on the right edge; the bottom of the bounds (its least Y)
/// lands on the bottom of the frame (its greatest Y) and the top on the top.
pub struct ScreenTransform {
    frame: Rect,
    bounds: DocBounds,
}

impl ScreenTransform {
    /// The screen rectangle that the bounds are drawn into.
    pub closed spec fn spec_frame(self) -> Rect {
        self.frame
    }

    /// The visible region of the document.
    pub closed spec fn spec_bounds(self) -> DocBounds {
        self.bounds
    }

    /// Screen X of document X, before any range check.
    pub open spec fn doc_to_screen_x(self, x: int) -> int {
        spec_remap(
            x,
            self.spec_bounds().min[0] as int,
            self.spec_bounds().max[0] as int,
            self.spec_frame().min.x as int,
            self.spec_frame().max.x as int,
        )
    }

    /// Screen Y of document Y, before any range check. The least document Y
    /// goes to the frame's bottom edge.
    pub open spec fn doc_to_screen_y(self, y: int) -> int {
        spec_remap(
            y,
            self.spec_bounds().min[1] as int,
            self.spec_bounds().max[1] as int,
            self.spec_frame().max.y as int,
            self.spec_frame().min.y as int,
        )
    }

    /// Document X of screen X, before any range check.
    pub open spec fn screen_to_doc_x(self, px: int) -> int {
        spec_remap(
            px,
            self.spec_frame().min.x as int,
            self.spec_frame().max.x as int,
            self.spec_bounds().min[0] as int,
            self.spec_bounds().max[0] as int,
        )
    }

    /// Document Y of screen Y, before any range check. The frame's bottom
    /// edge goes to the least document Y.
    pub open spec fn screen_to_doc_y(self, py: int) -> int {
        spec_remap(
            py,
            self.spec_frame().max.y as int,
            self.spec_frame().min.y as int,
            self.spec_bounds().min[1] as int,
            self.spec_bounds().max[1] as int,
        )
    }

    /// What `position_from_value` returns.
    pub open spec fn spec_position_from_value(self, value: Pos2) -> Result<Pos2, TransformError> {
        let x = self.doc_to_screen_x(value.x as int);
        let y = self.doc_to_screen_y(value.y as int);
        if !self.spec_bounds().spec_is_valid() {
            Err(TransformError::InvalidBounds)
        } else if !fits_i32(x) || !fits_i32(y) {
            Err(TransformError::OutOfRange)
        } else {
            Ok(Pos2 { x: x as i32, y: y as i32 })
        }
    }

    /// What `value_from_position` returns.
    pub open spec fn spec_value_from_position(self, pos: Pos2) -> Result<Pos2, TransformError> {
        let x = self.screen_to_doc_x(pos.x as int);
        let y = self.screen_to_doc_y(pos.y as int);
        if !self.spec_bounds().spec_is_valid() {
            Err(TransformError::InvalidBounds)
        } else if self.spec_frame().spec_is_degenerate() {
            Err(TransformError::DegenerateFrame)
        } else if !fits_i32(x) || !fits_i32(y) {
            Err(TransformError::OutOfRange)
        } else {
            Ok(Pos2 { x: x as i32, y: y as i32 })
        }
    }

    /// What `rect_from_values` returns.
    pub open spec fn spec_rect_from_values(self, value1: Pos2, value2: Pos2) -> Result<
        Rect,
        TransformError,
    > {
        match (self.spec_position_from_value(value1), self.spec_position_from_value(value2)) {
            (Ok(pos1), Ok(pos2)) => Ok(Rect::spanning(pos1, pos2)),
            (Err(e), _) => Err(e),
            (_, Err(e)) => Err(e),
        }
    }

    /// `q` is the number of screen units per document unit along X: frame
    /// width over bounds width.
    pub open spec fn is_dpos_dvalue_x(self, q: Ratio) -> bool {
        &&& q.spec_num() == self.spec_frame().spec_width()
        &&& q.spec_den() == self.spec_bounds().spec_width()
    }

    /// `q` is the number of screen units per document unit along Y: frame
    /// height over bounds height, negated because the axes point opposite
    /// ways.
    pub open spec fn is_dpos_dvalue_y(self, q: Ratio) -> bool {
        &&& q.spec_num() == -self.spec_frame().spec_height()
        &&& q.spec_den() == self.spec_bounds().spec_height()
    }

    /// `q` is the number of document units per screen unit along X: the
    /// reciprocal of `is_dpos_dvalue_x`.
    pub open spec fn is_dvalue_dpos_x(self, q: Ratio) -> bool {
        &&& q.spec_num() == self.spec_bounds().spec_width()
        &&& q.spec_den() == self.spec_frame().spec_width()
    }

    /// `q` is the number of document units per screen unit along Y: the
    /// reciprocal of `is_dpos_dvalue_y`.
    pub open spec fn is_dvalue_dpos_y(self, q: Ratio) -> bool {
        &&& q.spec_num() == self.spec_bounds().spec_height()
        &&& q.spec_den() == -self.spec_frame().spec_height()
    }

    /// Document units along X that a move of `d` screen units stands for,
    /// rounded down.
    pub open spec fn pan_x(self, d: int) -> int {
        floor_div(d * self.spec_bounds().spec_width(), self.spec_frame().spec_width())
    }

    /// Document units along Y that a move of `d` screen units stands for,
    /// rounded down. A move down the screen is a move down the document.
    pub open spec fn pan_y(self, d: int) -> int {
        floor_div(d * self.spec_bounds().spec_height(), -self.spec_frame().spec_height())
    }

    /// The document displacement for a screen displacement has coordinates
    /// in range, and the bounds can move by it.
    pub open spec fn can_pan(self, delta_pos: Vec2) -> bool {
        &&& fits_i32(self.pan_x(delta_pos.x as int))
        &&& fits_i32(self.pan_y(delta_pos.y as int))
        &&& self.spec_bounds().can_shift(
            self.pan_x(delta_pos.x as int),
            self.pan_y(delta_pos.y as int),
        )
    }

    /// What `translate_bounds` returns.
    pub open spec fn spec_translate_bounds(self, delta_pos: Vec2) -> Result<(), TransformError> {
        if !self.spec_bounds().spec_is_valid() {
            Err(TransformError::InvalidBounds)
        } else if self.spec_frame().spec_is_degenerate() {
            Err(TransformError::DegenerateFrame)
        } else if !self.can_pan(delta_pos) {
            Err(TransformError::OutOfRange)
        } else {
            Ok(())
        }
    }

    /// Pairs a screen rectangle with the bounds drawn into it. Any pair is
    /// accepted; the operations say what they need of it.
    pub fn new(frame: Rect, bounds: DocBounds) -> (t: Self)
        ensures
            t.spec_frame() == frame,
            t.spec_bounds() == bounds,
    {
        Self { frame, bounds }
    }

    /// The screen rectangle that the bounds are drawn into.
    pub fn frame(&self) -> (f: &Rect)
        ensures
            *f == self.spec_frame(),
    {
        &self.frame
    }

    /// The visible region of the document.
    pub fn bounds(&self) -> (b: &DocBounds)
        ensures
            *b == self.spec_bounds(),
    {
        &self.bounds
    }

    /// The bounds, to be changed in place. The frame stays as it is.
    pub fn bounds_mut(&mut self) -> (b: &mut DocBounds)
        ensures
            *b == old(self).spec_bounds(),
            final(self).spec_bounds() == *final(b),
            final(self).spec_frame() == old(self).spec_frame(),
    {
        &mut self.bounds
    }

    /// Maps a document point to the screen, each axis on its own and Y
    /// flipped.
    pub fn position_from_value(&self, value: &Pos2) -> (r: Result<Pos2, TransformError>)
        ensures
            r == self.spec_position_from_value(*value),
    {
        if !self.bounds.is_valid() {
            return Err(TransformError::InvalidBounds);
        }
        let x = remap(
            value.x,
            (self.bounds.min[0], self.bounds.max[0]),
            (self.frame.left(), self.frame.right()),
        );
        let y = remap(
            value.y,
            (self.bounds.min[1], self.bounds.max[1]),
            (self.frame.bottom(), self.frame.top()),
        );
        match (x, y) {
            (Some(x), Some(y)) => Ok(Pos2 { x, y }),
            _ => Err(TransformError::OutOfRange),
        }
    }

    /// Maps a screen position back to the document: the inverse of
    /// `position_from_value`, up to rounding.
    pub fn value_from_position(&self, pos: &Pos2) -> (r: Result<Pos2, TransformError>)
        ensures
            r == self.spec_value_from_position(*pos),
    {
        if !self.bounds.is_valid() {
            return Err(TransformError::InvalidBounds);
        }
        if self.frame.is_degenerate() {
            return Err(TransformError::DegenerateFrame);
        }
        let x = remap(
            pos.x,
            (self.frame.left(), self.frame.right()),
            (self.bounds.min[0], self.bounds.max[0]),
        );
        let y = remap(
            pos.y,
            (self.frame.bottom(), self.frame.top()),
            (self.bounds.min[1], self.bounds.max[1]),
        );
        match (x, y) {
            (Some(x), Some(y)) => Ok(Pos2 { x, y }),
            _ => Err(TransformError::OutOfRange),
        }
    }

    /// Pans the bounds by a drag of `delta_pos` screen units: the drag is
    /// converted to document units with `dvalue_dpos` and the bounds are
    /// translated by the result. On any error the bounds stay as they were.
    pub fn translate_bounds(&mut self, delta_pos: Vec2) -> (r: Result<(), TransformError>)
        ensures
            r == old(self).spec_translate_bounds(delta_pos),
            final(self).spec_frame() == old(self).spec_frame(),
            r is Err ==> final(self).spec_bounds() == old(self).spec_bounds(),
            r is Ok ==> final(self).spec_bounds().is_shift_of(
                old(self).spec_bounds(),
                old(self).pan_x(delta_pos.x as int),
                old(self).pan_y(delta_pos.y as int),
            ),
    {
        let scale = match self.dvalue_dpos() {
            Ok(scale) => scale,
            Err(e) => {
                return Err(e);
            },
        };
        match (scale[0].apply(delta_pos.x), scale[1].apply(delta_pos.y)) {
            (Some(x), Some(y)) => self.bounds.translate(Vec2 { x, y }),
            _ => Err(TransformError::OutOfRange),
        }
    }

    /// Screen units per document unit along X: frame width over bounds
    /// width.
    pub fn dpos_dvalue_x(&self) -> (r: Result<Ratio, TransformError>)
        ensures
            !self.spec_bounds().spec_is_valid() ==> r == Err::<Ratio, TransformError>(
                TransformError::InvalidBounds,
            ),
            self.spec_bounds().spec_is_valid() ==> (r matches Ok(q) && self.is_dpos_dvalue_x(q)),
    {
        if !self.bounds.is_valid() {
            return Err(TransformError::InvalidBounds);
        }
        match Ratio::new(self.frame.width(), self.bounds.width()) {
            Some(q) => Ok(q),
            None => Err(TransformError::InvalidBounds),
        }
    }

    /// Screen units per document unit along Y: frame height over bounds
    /// height, negated because the axes point opposite ways.
    pub fn dpos_dvalue_y(&self) -> (r: Result<Ratio, TransformError>)
        ensures
            !self.spec_bounds().spec_is_valid() ==> r == Err::<Ratio, TransformError>(
                TransformError::InvalidBounds,
            ),
            self.spec_bounds().spec_is_valid() ==> (r matches Ok(q) && self.is_dpos_dvalue_y(q)),
    {
        if !self.bounds.is_valid() {
            return Err(TransformError::InvalidBounds);
        }
        match Ratio::new(-self.frame.height(), self.bounds.height()) {
            Some(q) => Ok(q),
            None => Err(TransformError::InvalidBounds),
        }
    }

    /// Both scale factors, X first.
    pub fn dpos_dvalue(&self) -> (r: Result<[Ratio; 2], TransformError>)
        ensures
            !self.spec_bounds().spec_is_valid() ==> r == Err::<[Ratio; 2], TransformError>(
                TransformError::InvalidBounds,
            ),
            self.spec_bounds().spec_is_valid() ==> (r matches Ok(q) && self.is_dpos_dvalue_x(q[0])
                && self.is_dpos_dvalue_y(q[1])),
    {
        let x = match self.dpos_dvalue_x() {
            Ok(x) => x,
            Err(e) => {
                return Err(e);
            },
        };
        let y = match self.dpos_dvalue_y() {
            Ok(y) => y,
            Err(e) => {
                return Err(e);
            },
        };
        Ok([x, y])
    }

    /// Document units per screen unit, X first: the reciprocals of
    /// `dpos_dvalue`.
    pub fn dvalue_dpos(&self) -> (r: Result<[Ratio; 2], TransformError>)
        ensures
            !self.spec_bounds().spec_is_valid() ==> r == Err::<[Ratio; 2], TransformError>(
                TransformError::InvalidBounds,
            ),
            self.spec_bounds().spec_is_valid() && self.spec_frame().spec_is_degenerate() ==> r
                == Err::<[Ratio; 2], TransformError>(TransformError::DegenerateFrame),
            self.spec_bounds().spec_is_valid() && !self.spec_frame().spec_is_degenerate() ==> (r
                matches Ok(q) && self.is_dvalue_dpos_x(q[0]) && self.is_dvalue_dpos_y(q[1])),
    {
        let scale = match self.dpos_dvalue() {
            Ok(scale) => scale,
            Err(e) => {
                return Err(e);
            },
        };
        match (scale[0].recip(), scale[1].recip()) {
            (Some(x), Some(y)) => Ok([x, y]),
            _ => Err(TransformError::DegenerateFrame),
        }
    }

    /// The smallest screen rectangle that holds the images of two document
    /// points. The points may be any two opposite corners, in either order.
    pub fn rect_from_values(&self, value1: &Pos2, value2: &Pos2) -> (r: Result<
        Rect,
        TransformError,
    >)
        ensures
            r == self.spec_rect_from_values(*value1, *value2),
    {
        let pos1 = match self.position_from_value(value1) {
            Ok(pos1) => pos1,
            Err(e) => {
                return Err(e);
            },
        };
        let pos2 = match self.position_from_value(value2) {
            Ok(pos2) => pos2,
            Err(e) => {
                return Err(e);
            },
        };
        let mut rect = Rect::nothing();
        rect.extend_with(pos1);
        rect.extend_with(pos2);
        proof {
            lemma_nothing_extended_twice(pos1, pos2);
        }
        Ok(rect)
    }
}

} // verus!
