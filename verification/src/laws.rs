//! What holds of the view transform on every input.

use vstd::prelude::*;
use vstd::math::abs;
use crate::arith::lemma_floor_div_scaled;
use crate::arith::lemma_remap_endpoints;
use crate::arith::lemma_remap_round_trip;
use crate::arith::lemma_remap_stays_inside;
use crate::bounds::DocBounds;
use crate::error::TransformError;
use crate::geom::Pos2;
use crate::ratio::Ratio;
use crate::transform::ScreenTransform;

verus! {

/// Mapping a document point to the screen and back returns it up to
/// rounding, whenever both mappings succeed. On each axis the difference,
/// multiplied by the frame's extent, is less than the frame's extent plus the
/// bounds' extent: less than one document unit plus what one screen unit
/// covers. Where the frame's extent is a whole multiple of the bounds' extent
/// the point comes back exactly.
pub proof fn lemma_value_round_trip(t: ScreenTransform, p: Pos2)
    ensures
        t.spec_position_from_value(p) matches Ok(s) ==> t.spec_value_from_position(s) matches Ok(
            q,
        ) ==> {
            &&& abs(q.x - p.x) * abs(t.spec_frame().spec_width()) < abs(
                t.spec_frame().spec_width(),
            ) + t.spec_bounds().spec_width()
            &&& abs(q.y - p.y) * abs(t.spec_frame().spec_height()) < abs(
                t.spec_frame().spec_height(),
            ) + t.spec_bounds().spec_height()
            &&& abs(t.spec_frame().spec_width()) % (t.spec_bounds().spec_width() as nat) == 0
                ==> q.x == p.x
            &&& abs(t.spec_frame().spec_height()) % (t.spec_bounds().spec_height() as nat) == 0
                ==> q.y == p.y
        },
{
    let b = t.spec_bounds();
    let f = t.spec_frame();
    if b.spec_is_valid() && !f.spec_is_degenerate() {
        lemma_remap_round_trip(
            p.x as int,
            b.min[0] as int,
            b.max[0] as int,
            f.min.x as int,
            f.max.x as int,
        );
        lemma_remap_round_trip(
            p.y as int,
            b.min[1] as int,
            b.max[1] as int,
            f.max.y as int,
            f.min.y as int,
        );
        assert(abs(f.min.y - f.max.y) == abs(f.spec_height()));
    }
}

/// Mapping a screen position to the document and back returns it up to
/// rounding, whenever both mappings succeed. On each axis the difference,
/// multiplied by the bounds' extent, is less than the bounds' extent plus the
/// frame's extent. Where the bounds' extent is a whole multiple of the
/// frame's extent the position comes back exactly.
pub proof fn lemma_position_round_trip(t: ScreenTransform, s: Pos2)
    ensures
        t.spec_value_from_position(s) matches Ok(p) ==> t.spec_position_from_value(p) matches Ok(
            q,
        ) ==> {
            &&& abs(q.x - s.x) * t.spec_bounds().spec_width() < t.spec_bounds().spec_width() + abs(
                t.spec_frame().spec_width(),
            )
            &&& abs(q.y - s.y) * t.spec_bounds().spec_height() < t.spec_bounds().spec_height()
                + abs(t.spec_frame().spec_height())
            &&& (t.spec_bounds().spec_width() as nat) % abs(t.spec_frame().spec_width()) == 0
                ==> q.x == s.x
            &&& (t.spec_bounds().spec_height() as nat) % abs(t.spec_frame().spec_height()) == 0
                ==> q.y == s.y
        },
{
    let b = t.spec_bounds();
    let f = t.spec_frame();
    if b.spec_is_valid() && !f.spec_is_degenerate() {
        lemma_remap_round_trip(
            s.x as int,
            f.min.x as int,
            f.max.x as int,
            b.min[0] as int,
            b.max[0] as int,
        );
        lemma_remap_round_trip(
            s.y as int,
            f.max.y as int,
            f.min.y as int,
            b.min[1] as int,
            b.max[1] as int,
        );
        assert(abs(f.min.y - f.max.y) == abs(f.spec_height()));
    }
}

/// A visible point can always be mapped, and lands within the frame.
pub proof fn lemma_visible_point_maps_into_frame(t: ScreenTransform, p: Pos2)
    requires
        t.spec_bounds().spec_is_valid(),
        t.spec_bounds().holds(p),
    ensures
        t.spec_position_from_value(p) matches Ok(s) && t.spec_frame().holds(s),
{
    let b = t.spec_bounds();
    let f = t.spec_frame();
    lemma_remap_stays_inside(
        p.x as int,
        b.min[0] as int,
        b.max[0] as int,
        f.min.x as int,
        f.max.x as int,
    );
    lemma_remap_stays_inside(
        p.y as int,
        b.min[1] as int,
        b.max[1] as int,
        f.max.y as int,
        f.min.y as int,
    );
}

/// A position within the frame can always be mapped back, and comes from a
/// visible point.
pub proof fn lemma_frame_position_maps_into_bounds(t: ScreenTransform, s: Pos2)
    requires
        t.spec_bounds().spec_is_valid(),
        !t.spec_frame().spec_is_degenerate(),
        t.spec_frame().holds(s),
    ensures
        t.spec_value_from_position(s) matches Ok(p) && t.spec_bounds().holds(p),
{
    let b = t.spec_bounds();
    let f = t.spec_frame();
    lemma_remap_stays_inside(
        s.x as int,
        f.min.x as int,
        f.max.x as int,
        b.min[0] as int,
        b.max[0] as int,
    );
    lemma_remap_stays_inside(
        s.y as int,
        f.max.y as int,
        f.min.y as int,
        b.min[1] as int,
        b.max[1] as int,
    );
}

/// The corners of the bounds land on the corners of the frame, with Y
/// flipped: the least corner of the bounds goes to the frame's left edge and
/// its bottom edge, the greatest corner to the right edge and the top edge.
pub proof fn lemma_corners_flip(t: ScreenTransform)
    requires
        t.spec_bounds().spec_is_valid(),
    ensures
        t.spec_position_from_value(
            Pos2 { x: t.spec_bounds().min[0], y: t.spec_bounds().min[1] },
        ) == Ok::<Pos2, TransformError>(
            Pos2 { x: t.spec_frame().min.x, y: t.spec_frame().max.y },
        ),
        t.spec_position_from_value(
            Pos2 { x: t.spec_bounds().max[0], y: t.spec_bounds().max[1] },
        ) == Ok::<Pos2, TransformError>(
            Pos2 { x: t.spec_frame().max.x, y: t.spec_frame().min.y },
        ),
{
    let b = t.spec_bounds();
    let f = t.spec_frame();
    lemma_remap_endpoints(b.min[0] as int, b.max[0] as int, f.min.x as int, f.max.x as int);
    lemma_remap_endpoints(b.min[1] as int, b.max[1] as int, f.max.y as int, f.min.y as int);
}

/// The number of document units per screen unit grows in proportion to the
/// visible extent: with the same frame and bounds `k` times as wide and as
/// high, each reciprocal scale factor is `k` times what it was.
pub proof fn lemma_dvalue_dpos_scales_with_extent(
    narrow: ScreenTransform,
    wide: ScreenTransform,
    k: int,
    narrow_x: Ratio,
    narrow_y: Ratio,
    wide_x: Ratio,
    wide_y: Ratio,
)
    requires
        narrow.spec_frame() == wide.spec_frame(),
        wide.spec_bounds().spec_width() == k * narrow.spec_bounds().spec_width(),
        wide.spec_bounds().spec_height() == k * narrow.spec_bounds().spec_height(),
        narrow.is_dvalue_dpos_x(narrow_x),
        narrow.is_dvalue_dpos_y(narrow_y),
        wide.is_dvalue_dpos_x(wide_x),
        wide.is_dvalue_dpos_y(wide_y),
    ensures
        wide_x.is_multiple_of(k, narrow_x),
        wide_y.is_multiple_of(k, narrow_y),
{
    let fw = narrow.spec_frame().spec_width();
    let fh = narrow.spec_frame().spec_height();
    let w = narrow.spec_bounds().spec_width();
    let h = narrow.spec_bounds().spec_height();
    assert((k * w) * fw == k * w * fw) by (nonlinear_arith);
    assert((k * h) * (-fh) == k * h * (-fh)) by (nonlinear_arith);
}

/// The same drag pans further when more of the document is visible. With the
/// same frame and bounds `k` times as wide and as high, a drag of `d` screen
/// units pans by `k` times as many document units, up to the rounding of the
/// two pans: the wider pan is at least `k` times the narrower one and exceeds
/// it by less than `k`.
pub proof fn lemma_pan_scales_with_extent(
    narrow: ScreenTransform,
    wide: ScreenTransform,
    k: int,
    d: int,
)
    requires
        narrow.spec_frame() == wide.spec_frame(),
        !narrow.spec_frame().spec_is_degenerate(),
        k >= 1,
        wide.spec_bounds().spec_width() == k * narrow.spec_bounds().spec_width(),
        wide.spec_bounds().spec_height() == k * narrow.spec_bounds().spec_height(),
    ensures
        k * narrow.pan_x(d) <= wide.pan_x(d) < k * narrow.pan_x(d) + k,
        k * narrow.pan_y(d) <= wide.pan_y(d) < k * narrow.pan_y(d) + k,
{
    let fw = narrow.spec_frame().spec_width();
    let fh = narrow.spec_frame().spec_height();
    let w = narrow.spec_bounds().spec_width();
    let h = narrow.spec_bounds().spec_height();
    assert(d * (k * w) == k * (d * w)) by (nonlinear_arith);
    assert(d * (k * h) == k * (d * h)) by (nonlinear_arith);
    lemma_floor_div_scaled(d * w, fw, k);
    lemma_floor_div_scaled(d * h, -fh, k);
}

/// The rectangle spanned by the images of two document points does not
/// depend on the order in which the points are given, and neither does the
/// error when one of them cannot be mapped.
pub proof fn lemma_rect_from_values_symmetric(t: ScreenTransform, a: Pos2, b: Pos2)
    ensures
        t.spec_rect_from_values(a, b) == t.spec_rect_from_values(b, a),
{
}

/// Translating the bounds keeps their shape: a shift of the corners by
/// `(dx, dy)` leaves width and height as they were.
pub proof fn lemma_shift_keeps_shape(before: DocBounds, after: DocBounds, dx: int, dy: int)
    requires
        after.is_shift_of(before, dx, dy),
    ensures
        after.spec_width() == before.spec_width(),
        after.spec_height() == before.spec_height(),
        after.spec_is_valid() == before.spec_is_valid(),
{
}

} // verus!
