use sketcher::draw::{set_mode, tick, CurrentDrawing, Cursor, DrawMode, DrawingState, TickInput};
use sketcher::geometry::{corners_of_rect, distance_squared, Point3};
use sketcher::preview::{derive_preview, PreviewPrimitive};
use sketcher::shapes::{rectangle_polygon, Shape};

fn pt(x: i32, y: i32, z: i32) -> Point3 {
    Point3 { x, y, z }
}

fn click_tick(cursor: Option<Point3>) -> TickInput {
    TickInput {
        escape: false,
        mode_key: None,
        left_click: true,
        right_click: false,
        cursor: Cursor { position: cursor },
    }
}

#[test]
fn line_preview_follows_the_cursor() {
    let mut s = DrawingState::new();
    set_mode(&mut s, DrawMode::Line);
    let (_, preview) = tick(&mut s, click_tick(Some(pt(1, 0, 1))));
    // The start vertex was just fixed; the preview runs to the cursor.
    assert_eq!(
        preview,
        Some(PreviewPrimitive::Segment {
            start: pt(1, 0, 1),
            end: pt(1, 0, 1),
        })
    );
    let p = derive_preview(s.mode, &s.drawing, Some(pt(4, 0, 2)));
    assert_eq!(
        p,
        Some(PreviewPrimitive::Segment {
            start: pt(1, 0, 1),
            end: pt(4, 0, 2),
        })
    );
}

#[test]
fn no_preview_without_cursor_or_first_point() {
    let mut s = DrawingState::new();
    set_mode(&mut s, DrawMode::Line);
    assert_eq!(derive_preview(s.mode, &s.drawing, Some(pt(0, 0, 0))), None);
    tick(&mut s, click_tick(Some(pt(1, 0, 1))));
    assert_eq!(derive_preview(s.mode, &s.drawing, None), None);
}

#[test]
fn dot_mode_has_no_preview() {
    let mut s = DrawingState::new();
    set_mode(&mut s, DrawMode::Dot);
    let (_, preview) = tick(&mut s, click_tick(Some(pt(1, 0, 1))));
    assert_eq!(preview, None);
}

#[test]
fn rectangle_preview_substitutes_the_cursor_corner() {
    let mut s = DrawingState::new();
    set_mode(&mut s, DrawMode::Rectangle);
    tick(&mut s, click_tick(Some(pt(0, 0, 0))));
    let p = derive_preview(s.mode, &s.drawing, Some(pt(2, 0, 3)));
    assert_eq!(
        p,
        Some(PreviewPrimitive::Loop {
            corners: (pt(0, 0, 0), pt(2, 0, 0), pt(2, 0, 3), pt(0, 0, 3)),
        })
    );
}

#[test]
fn circle_preview_carries_center_and_rim() {
    let mut s = DrawingState::new();
    set_mode(&mut s, DrawMode::Circle);
    tick(&mut s, click_tick(Some(pt(1, 0, 1))));
    let p = derive_preview(s.mode, &s.drawing, Some(pt(4, 0, 5)));
    assert_eq!(
        p,
        Some(PreviewPrimitive::Circle {
            center: pt(1, 0, 1),
            rim: pt(4, 0, 5),
        })
    );
}

#[test]
fn arc_preview_rim_switches_from_cursor_to_start_point() {
    let mut s = DrawingState::new();
    set_mode(&mut s, DrawMode::Arc);
    tick(&mut s, click_tick(Some(pt(0, 0, 0))));
    // Only the center is fixed: the guide circle follows the cursor.
    let p = derive_preview(s.mode, &s.drawing, Some(pt(3, 0, 0)));
    assert_eq!(
        p,
        Some(PreviewPrimitive::ArcGuide {
            center: pt(0, 0, 0),
            rim: pt(3, 0, 0),
            cursor_guide: None,
        })
    );
    // Once the start point is fixed the rim sticks to it and a second guide
    // segment runs to the cursor.
    tick(&mut s, click_tick(Some(pt(3, 0, 0))));
    let p = derive_preview(s.mode, &s.drawing, Some(pt(0, 0, 4)));
    assert_eq!(
        p,
        Some(PreviewPrimitive::ArcGuide {
            center: pt(0, 0, 0),
            rim: pt(3, 0, 0),
            cursor_guide: Some(pt(0, 0, 4)),
        })
    );
}

#[test]
fn preview_never_mutates_the_state() {
    let mut s = DrawingState::new();
    set_mode(&mut s, DrawMode::Rectangle);
    tick(&mut s, click_tick(Some(pt(1, 0, 2))));
    let before = s;
    derive_preview(s.mode, &s.drawing, Some(pt(7, 0, 7)));
    assert_eq!(s, before);
}

#[test]
fn squared_distance_is_exact() {
    assert_eq!(distance_squared(pt(0, 0, 0), pt(3, 0, 0)), 9);
    assert_eq!(distance_squared(pt(1, 2, 3), pt(1, 2, 3)), 0);
    assert_eq!(distance_squared(pt(-1, -2, -3), pt(1, 2, 3)), 4 + 16 + 36);
    assert_eq!(
        distance_squared(pt(i32::MIN, i32::MIN, i32::MIN), pt(i32::MAX, i32::MAX, i32::MAX)),
        3u128 * ((u32::MAX as u128) * (u32::MAX as u128))
    );
}

#[test]
fn rectangle_corners_from_opposite_clicks() {
    let (c0, c1, c2, c3) = corners_of_rect(pt(0, 0, 0), pt(2, 0, 3));
    assert_eq!(c0, pt(0, 0, 0));
    assert_eq!(c1, pt(2, 0, 0));
    assert_eq!(c2, pt(2, 0, 3));
    assert_eq!(c3, pt(0, 0, 3));
}

#[test]
fn rectangle_polygon_carries_corners_and_edge_pairing() {
    let polygon = rectangle_polygon(pt(0, 0, 0), pt(2, 0, 3));
    assert_eq!(
        polygon,
        Shape::Polygon {
            corners: (pt(0, 0, 0), pt(2, 0, 0), pt(2, 0, 3), pt(0, 0, 3)),
            edges: ((0, 3), (1, 0), (2, 1), (3, 2)),
        }
    );
}

#[test]
fn buffer_accessors_report_slots_in_order() {
    let mut d = CurrentDrawing::default();
    assert_eq!(d.slot(0), None);
    assert!(!d.is_full(DrawMode::Line));
    d.set_slot(0, DrawMode::Line, pt(1, 0, 1));
    assert_eq!(d.slot(0), Some(pt(1, 0, 1)));
    assert!(!d.is_full(DrawMode::Line));
    d.set_slot(1, DrawMode::Line, pt(2, 0, 2));
    assert_eq!(d.slot(1), Some(pt(2, 0, 2)));
    assert!(d.is_full(DrawMode::Line));
    d.clear();
    assert_eq!(d.slot(0), None);
    assert_eq!(d.slot(1), None);
    assert_eq!(d.chain.count, 0);
}

#[test]
fn mode_arities() {
    assert_eq!(DrawMode::Inactive.arity(), 0);
    assert_eq!(DrawMode::Dot.arity(), 1);
    assert_eq!(DrawMode::Line.arity(), 2);
    assert_eq!(DrawMode::Rectangle.arity(), 2);
    assert_eq!(DrawMode::Circle.arity(), 2);
    assert_eq!(DrawMode::Arc.arity(), 3);
}
