use sketcher::draw::{
    reset_current_drawing, reset_drawing, set_mode, tick, Cursor, DrawMode, DrawingState,
    TickInput,
};
use sketcher::geometry::Point3;
use sketcher::reload::ReloadLevel;
use sketcher::shapes::{query_committed_shapes_at_or_below, CommittedShape, Shape};

fn pt(x: i32, y: i32, z: i32) -> Point3 {
    Point3 { x, y, z }
}

fn click(s: &mut DrawingState, cursor: Point3) -> Vec<CommittedShape> {
    let input = TickInput {
        escape: false,
        mode_key: None,
        left_click: true,
        right_click: false,
        cursor: Cursor { position: Some(cursor) },
    };
    tick(s, input).0
}

fn tagged(level: ReloadLevel, x: i32) -> CommittedShape {
    CommittedShape {
        shape: Shape::Point {
            position: pt(x, 0, 0),
        },
        level,
    }
}

#[test]
fn reset_twice_equals_reset_once() {
    let mut s = DrawingState::new();
    set_mode(&mut s, DrawMode::Line);
    click(&mut s, pt(0, 0, 0));
    click(&mut s, pt(1, 0, 0));
    click(&mut s, pt(2, 0, 0));

    let mut once = s;
    reset_drawing(&mut once.drawing);
    let mut twice = s;
    reset_drawing(&mut twice.drawing);
    reset_drawing(&mut twice.drawing);

    assert_eq!(once, twice);
    assert_eq!(once.drawing.slot0, None);
    assert_eq!(once.drawing.chain.count, 0);
    // The mode is deliberately not reset.
    assert_eq!(once.mode, DrawMode::Line);
}

#[test]
fn reset_current_drawing_keeps_the_chain_counter() {
    let mut s = DrawingState::new();
    set_mode(&mut s, DrawMode::Line);
    click(&mut s, pt(0, 0, 0));
    click(&mut s, pt(1, 0, 0));
    assert_eq!(s.drawing.chain.count, 1);
    reset_current_drawing(&mut s.drawing);
    assert_eq!(s.drawing.slot0, None);
    assert_eq!(s.drawing.slot1, None);
    assert_eq!(s.drawing.chain.count, 1);
}

#[test]
fn no_cursor_tick_changes_nothing() {
    for mode in [
        DrawMode::Inactive,
        DrawMode::Dot,
        DrawMode::Line,
        DrawMode::Rectangle,
        DrawMode::Circle,
        DrawMode::Arc,
    ] {
        let mut s = DrawingState::new();
        set_mode(&mut s, mode);
        if mode != DrawMode::Dot {
            click(&mut s, pt(1, 0, 1));
        }
        let before = s;
        let input = TickInput {
            escape: false,
            mode_key: None,
            left_click: true,
            right_click: false,
            cursor: Cursor { position: None },
        };
        let (emitted, preview) = tick(&mut s, input);
        assert!(emitted.is_empty());
        assert!(preview.is_none());
        assert_eq!(s, before);
    }
}

#[test]
fn right_click_cancels_even_without_a_cursor() {
    // Cancelling needs no cursor point: only accumulate steps do.
    let mut s = DrawingState::new();
    set_mode(&mut s, DrawMode::Line);
    click(&mut s, pt(1, 0, 1));
    let input = TickInput {
        escape: false,
        mode_key: None,
        left_click: false,
        right_click: true,
        cursor: Cursor { position: None },
    };
    let (emitted, _) = tick(&mut s, input);
    assert!(emitted.is_empty());
    assert_eq!(s.drawing.slot0, None);
}

#[test]
fn soft_reload_selects_only_soft_shapes() {
    let shapes = vec![
        tagged(ReloadLevel::Soft, 0),
        tagged(ReloadLevel::Hard, 1),
        tagged(ReloadLevel::Soft, 2),
    ];
    let selected = query_committed_shapes_at_or_below(&shapes, ReloadLevel::Soft);
    assert_eq!(
        selected,
        vec![tagged(ReloadLevel::Soft, 0), tagged(ReloadLevel::Soft, 2)]
    );
}

#[test]
fn hard_reload_selects_everything_in_order() {
    let shapes = vec![
        tagged(ReloadLevel::Soft, 0),
        tagged(ReloadLevel::Hard, 1),
        tagged(ReloadLevel::Soft, 2),
    ];
    let selected = query_committed_shapes_at_or_below(&shapes, ReloadLevel::Hard);
    assert_eq!(selected, shapes);
}

#[test]
fn reload_level_order_is_soft_below_hard() {
    assert!(ReloadLevel::Soft.le(ReloadLevel::Soft));
    assert!(ReloadLevel::Soft.le(ReloadLevel::Hard));
    assert!(ReloadLevel::Hard.le(ReloadLevel::Hard));
    assert!(!ReloadLevel::Hard.le(ReloadLevel::Soft));
}

#[test]
fn every_committed_shape_is_hard_tagged() {
    let mut s = DrawingState::new();
    let mut all: Vec<CommittedShape> = Vec::new();
    set_mode(&mut s, DrawMode::Dot);
    all.extend(click(&mut s, pt(0, 0, 0)));
    set_mode(&mut s, DrawMode::Line);
    all.extend(click(&mut s, pt(0, 0, 0)));
    all.extend(click(&mut s, pt(1, 0, 0)));
    set_mode(&mut s, DrawMode::Rectangle);
    all.extend(click(&mut s, pt(0, 0, 0)));
    all.extend(click(&mut s, pt(1, 0, 1)));
    set_mode(&mut s, DrawMode::Circle);
    all.extend(click(&mut s, pt(0, 0, 0)));
    all.extend(click(&mut s, pt(1, 0, 0)));
    set_mode(&mut s, DrawMode::Arc);
    all.extend(click(&mut s, pt(0, 0, 0)));
    all.extend(click(&mut s, pt(1, 0, 0)));
    all.extend(click(&mut s, pt(0, 0, 1)));
    assert!(!all.is_empty());
    assert!(all.iter().all(|c| c.level == ReloadLevel::Hard));
    // A hard reload would therefore remove every one of them.
    let selected = query_committed_shapes_at_or_below(&all, ReloadLevel::Hard);
    assert_eq!(selected, all);
}
