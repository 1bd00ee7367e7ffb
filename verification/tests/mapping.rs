use schematic_view::pos2;
use schematic_view::remap;
use schematic_view::DocBounds;
use schematic_view::Pos2;
use schematic_view::Rect;
use schematic_view::ScreenTransform;
use schematic_view::TransformError;

fn unit_view() -> ScreenTransform {
    ScreenTransform::new(
        Rect { min: pos2(0, 0), max: pos2(100, 100) },
        DocBounds { min: [-1, -1], max: [1, 1] },
    )
}

fn view(frame: (i32, i32, i32, i32), bounds: (i32, i32, i32, i32)) -> ScreenTransform {
    ScreenTransform::new(
        Rect { min: pos2(frame.0, frame.1), max: pos2(frame.2, frame.3) },
        DocBounds { min: [bounds.0, bounds.1], max: [bounds.2, bounds.3] },
    )
}

#[test]
fn corners_of_unit_view_map_to_flipped_frame_corners() {
    let t = unit_view();
    assert_eq!(t.position_from_value(&pos2(-1, -1)), Ok(pos2(0, 100)));
    assert_eq!(t.position_from_value(&pos2(1, 1)), Ok(pos2(100, 0)));
}

#[test]
fn center_of_unit_view_maps_to_center_of_frame() {
    let t = unit_view();
    assert_eq!(t.position_from_value(&pos2(0, 0)), Ok(pos2(50, 50)));
}

#[test]
fn point_outside_bounds_is_extrapolated() {
    let t = unit_view();
    assert_eq!(t.position_from_value(&pos2(3, -2)), Ok(pos2(200, 150)));
    assert_eq!(t.position_from_value(&pos2(-3, 2)), Ok(pos2(-100, -50)));
}

#[test]
fn y_flip_holds_for_an_offset_frame() {
    let t = view((10, 20, 330, 260), (-40, 5, 120, 65));
    let low = t.position_from_value(&pos2(-40, 5)).unwrap();
    let high = t.position_from_value(&pos2(120, 65)).unwrap();
    assert_eq!(low, pos2(10, 260));
    assert_eq!(high, pos2(330, 20));
    assert_eq!(low.y, t.frame().bottom());
    assert_eq!(high.y, t.frame().top());
    assert_eq!(low.x, t.frame().left());
    assert_eq!(high.x, t.frame().right());
}

#[test]
fn position_rounds_down_on_both_axes() {
    // 10 screen units across 3 document units: 1 -> 3.33, 2 -> 6.67;
    // on Y, 1 -> 10 - 3.33 = 6.67 and 2 -> 10 - 6.67 = 3.33.
    let t = view((0, 0, 10, 10), (0, 0, 3, 3));
    assert_eq!(t.position_from_value(&pos2(1, 1)), Ok(pos2(3, 6)));
    assert_eq!(t.position_from_value(&pos2(2, 2)), Ok(pos2(6, 3)));
    assert_eq!(t.position_from_value(&pos2(-1, -1)), Ok(pos2(-4, 13)));
}

#[test]
fn value_from_position_inverts_the_unit_view() {
    let t = unit_view();
    assert_eq!(t.value_from_position(&pos2(0, 100)), Ok(pos2(-1, -1)));
    assert_eq!(t.value_from_position(&pos2(100, 0)), Ok(pos2(1, 1)));
    assert_eq!(t.value_from_position(&pos2(50, 50)), Ok(pos2(0, 0)));
}

#[test]
fn value_from_position_rounds_down() {
    let t = unit_view();
    // x: -1 + 75 * 2 / 100 = 0.5; y: -1 + (25 - 100) * 2 / -100 = 0.5
    assert_eq!(t.value_from_position(&pos2(75, 25)), Ok(pos2(0, 0)));
    // x: -1 + 0.5 = -0.5; y: -1 + 0.5 = -0.5
    assert_eq!(t.value_from_position(&pos2(25, 75)), Ok(pos2(-1, -1)));
}

#[test]
fn round_trip_is_exact_when_frame_is_a_multiple_of_bounds() {
    let t = view((7, -3, 607, 397), (-100, -50, 100, 50));
    for x in [-250, -100, -1, 0, 1, 99, 100, 333] {
        for y in [-77, -50, 0, 13, 50, 51] {
            let p = pos2(x, y);
            let s = t.position_from_value(&p).unwrap();
            assert_eq!(t.value_from_position(&s), Ok(p));
        }
    }
}

#[test]
fn round_trip_stays_within_one_screen_unit_and_one_document_unit() {
    let t = view((0, 0, 10, 7), (0, 0, 300, 100));
    let fw = t.frame().width();
    let fh = t.frame().height();
    let bw = t.bounds().width();
    let bh = t.bounds().height();
    for x in -20..320 {
        for y in [-9, 0, 1, 33, 50, 99, 100, 140] {
            let p = pos2(x, y);
            let s = t.position_from_value(&p).unwrap();
            let q = t.value_from_position(&s).unwrap();
            let ex = (q.x as i64 - p.x as i64).abs();
            let ey = (q.y as i64 - p.y as i64).abs();
            assert!(ex * fw.abs() < fw.abs() + bw);
            assert!(ey * fh.abs() < fh.abs() + bh);
        }
    }
}

#[test]
fn round_trip_of_one_point_loses_what_rounding_loses() {
    let t = view((0, 0, 10, 10), (0, 0, 3, 3));
    let s = t.position_from_value(&pos2(1, 1)).unwrap();
    assert_eq!(s, pos2(3, 6));
    // x: 3 * 3 / 10 = 0.9 -> 0; y: (6 - 10) * 3 / -10 = 1.2 -> 1
    assert_eq!(t.value_from_position(&s), Ok(pos2(0, 1)));
}

#[test]
fn mirrored_frame_is_mapped_through() {
    // a frame whose right edge is left of its left edge mirrors X
    let t = view((100, 0, 0, 100), (0, 0, 10, 10));
    assert_eq!(t.position_from_value(&pos2(0, 0)), Ok(pos2(100, 100)));
    assert_eq!(t.position_from_value(&pos2(10, 10)), Ok(pos2(0, 0)));
    assert_eq!(t.position_from_value(&pos2(3, 3)), Ok(pos2(70, 70)));
    assert_eq!(t.value_from_position(&pos2(70, 70)), Ok(pos2(3, 3)));
}

#[test]
fn zero_width_bounds_are_refused() {
    let t = view((0, 0, 100, 100), (5, 0, 5, 10));
    assert!(!t.bounds().is_valid());
    assert_eq!(t.position_from_value(&pos2(5, 5)), Err(TransformError::InvalidBounds));
    assert_eq!(t.value_from_position(&pos2(5, 5)), Err(TransformError::InvalidBounds));
    assert_eq!(
        t.rect_from_values(&pos2(0, 0), &pos2(1, 1)),
        Err(TransformError::InvalidBounds)
    );
}

#[test]
fn inverted_bounds_are_refused() {
    let t = view((0, 0, 100, 100), (0, 10, 10, 0));
    assert!(!t.bounds().is_valid());
    assert_eq!(t.position_from_value(&pos2(5, 5)), Err(TransformError::InvalidBounds));
    assert_eq!(t.value_from_position(&pos2(5, 5)), Err(TransformError::InvalidBounds));
}

#[test]
fn degenerate_frame_maps_forward_but_not_back() {
    let t = view((40, 0, 40, 100), (0, 0, 10, 10));
    assert!(t.frame().is_degenerate());
    assert_eq!(t.position_from_value(&pos2(7, 0)), Ok(pos2(40, 100)));
    assert_eq!(t.value_from_position(&pos2(40, 50)), Err(TransformError::DegenerateFrame));
}

#[test]
fn invalid_bounds_are_reported_before_a_degenerate_frame() {
    let t = view((40, 0, 40, 100), (0, 0, 0, 10));
    assert_eq!(t.value_from_position(&pos2(40, 50)), Err(TransformError::InvalidBounds));
}

#[test]
fn result_beyond_the_coordinate_range_is_refused() {
    let t = view((0, 0, i32::MAX, 100), (0, 0, 1, 1));
    assert_eq!(t.position_from_value(&pos2(1, 0)), Ok(pos2(i32::MAX, 100)));
    assert_eq!(t.position_from_value(&pos2(2, 0)), Err(TransformError::OutOfRange));
    assert_eq!(t.position_from_value(&pos2(0, 2)), Ok(pos2(0, -100)));
    let wide = view((0, 0, 1, 1), (0, 0, i32::MAX, i32::MAX));
    assert_eq!(wide.value_from_position(&pos2(2, 0)), Err(TransformError::OutOfRange));
    assert_eq!(wide.value_from_position(&pos2(1, 0)), Ok(pos2(i32::MAX, i32::MAX)));
}

#[test]
fn extreme_corners_do_not_overflow() {
    let t = view(
        (i32::MIN, i32::MIN, i32::MAX, i32::MAX),
        (i32::MIN, i32::MIN, i32::MAX, i32::MAX),
    );
    assert_eq!(
        t.position_from_value(&pos2(i32::MIN, i32::MIN)),
        Ok(pos2(i32::MIN, i32::MAX))
    );
    assert_eq!(
        t.position_from_value(&pos2(i32::MAX, i32::MAX)),
        Ok(pos2(i32::MAX, i32::MIN))
    );
    assert_eq!(t.position_from_value(&pos2(0, 0)), Ok(pos2(0, -1)));
    assert_eq!(t.value_from_position(&pos2(0, -1)), Ok(pos2(0, 0)));
}

#[test]
fn rect_from_values_spans_the_mapped_corners() {
    let t = unit_view();
    assert_eq!(
        t.rect_from_values(&pos2(-1, -1), &pos2(1, 1)),
        Ok(Rect { min: pos2(0, 0), max: pos2(100, 100) })
    );
    assert_eq!(
        t.rect_from_values(&pos2(0, -1), &pos2(1, 0)),
        Ok(Rect { min: pos2(50, 50), max: pos2(100, 100) })
    );
}

#[test]
fn rect_from_values_ignores_corner_order() {
    let t = view((10, 20, 330, 260), (-40, 5, 120, 65));
    let points = [pos2(-40, 5), pos2(120, 65), pos2(0, 0), pos2(-90, 200), pos2(7, 7)];
    for a in points {
        for b in points {
            assert_eq!(t.rect_from_values(&a, &b), t.rect_from_values(&b, &a));
        }
    }
    // top-left and bottom-right document corners, given crosswise
    assert_eq!(
        t.rect_from_values(&pos2(-40, 65), &pos2(120, 5)),
        Ok(Rect { min: pos2(10, 20), max: pos2(330, 260) })
    );
}

#[test]
fn rect_from_values_of_one_point_is_that_point() {
    let t = unit_view();
    assert_eq!(
        t.rect_from_values(&pos2(0, 0), &pos2(0, 0)),
        Ok(Rect { min: pos2(50, 50), max: pos2(50, 50) })
    );
}

#[test]
fn rect_from_values_reports_an_unmappable_corner_in_either_place() {
    let t = view((0, 0, i32::MAX, 100), (0, 0, 1, 1));
    assert_eq!(
        t.rect_from_values(&pos2(2, 0), &pos2(0, 0)),
        Err(TransformError::OutOfRange)
    );
    assert_eq!(
        t.rect_from_values(&pos2(0, 0), &pos2(2, 0)),
        Err(TransformError::OutOfRange)
    );
}

#[test]
fn remap_interpolates_and_rounds_down() {
    assert_eq!(remap(5, (0, 10), (0, 100)), Some(50));
    assert_eq!(remap(0, (0, 10), (20, 40)), Some(20));
    assert_eq!(remap(10, (0, 10), (20, 40)), Some(40));
    assert_eq!(remap(1, (0, 3), (0, 10)), Some(3));
    assert_eq!(remap(-1, (0, 3), (0, 10)), Some(-4));
    assert_eq!(remap(1, (0, 3), (10, 0)), Some(6));
    assert_eq!(remap(1, (3, 0), (0, 10)), Some(6));
    assert_eq!(remap(1, (3, 0), (10, 0)), Some(3));
}

#[test]
fn remap_refuses_what_does_not_fit() {
    assert_eq!(remap(2, (0, 1), (0, i32::MAX)), None);
    assert_eq!(remap(-2, (0, 1), (0, i32::MAX)), None);
    assert_eq!(remap(i32::MAX, (i32::MIN, i32::MAX), (i32::MIN, i32::MAX)), Some(i32::MAX));
    assert_eq!(remap(i32::MIN, (i32::MAX, i32::MIN), (i32::MIN, i32::MAX)), Some(i32::MAX));
}

#[test]
fn accessors_return_what_was_given() {
    let frame = Rect { min: pos2(1, 2), max: pos2(30, 40) };
    let bounds = DocBounds { min: [-5, -6], max: [7, 8] };
    let t = ScreenTransform::new(frame, bounds);
    assert_eq!(*t.frame(), frame);
    assert_eq!(*t.bounds(), bounds);
}

#[test]
fn bounds_mut_changes_the_mapping() {
    let mut t = unit_view();
    *t.bounds_mut() = DocBounds { min: [0, 0], max: [4, 4] };
    assert_eq!(*t.bounds(), DocBounds { min: [0, 0], max: [4, 4] });
    assert_eq!(*t.frame(), Rect { min: pos2(0, 0), max: pos2(100, 100) });
    assert_eq!(t.position_from_value(&pos2(1, 1)), Ok(pos2(25, 75)));
    t.bounds_mut().max[0] = 8;
    assert_eq!(t.position_from_value(&pos2(1, 1)), Ok(pos2(12, 75)));
}

#[test]
fn pos2_builds_a_point() {
    assert_eq!(pos2(3, -4), Pos2 { x: 3, y: -4 });
}

#[test]
fn visible_points_map_into_the_frame() {
    let t = view((10, 20, 17, 31), (-40, 5, 120, 65));
    for x in -40..=120 {
        for y in [5, 6, 33, 64, 65] {
            let s = t.position_from_value(&pos2(x, y)).unwrap();
            assert!(10 <= s.x && s.x <= 17);
            assert!(20 <= s.y && s.y <= 31);
        }
    }
    let huge = view(
        (i32::MAX, i32::MIN, i32::MIN, i32::MAX),
        (i32::MIN, i32::MIN, i32::MAX, i32::MAX),
    );
    for p in [pos2(i32::MIN, i32::MIN), pos2(-1, 0), pos2(12345, -54321), pos2(i32::MAX, i32::MAX)] {
        assert!(huge.position_from_value(&p).is_ok());
    }
}

#[test]
fn frame_positions_map_into_the_bounds() {
    let t = view((10, 20, 330, 260), (-4, 5, 3, 11));
    for x in 10..=330 {
        for y in [20, 21, 100, 259, 260] {
            let p = t.value_from_position(&pos2(x, y)).unwrap();
            assert!(-4 <= p.x && p.x <= 3);
            assert!(5 <= p.y && p.y <= 11);
        }
    }
}
