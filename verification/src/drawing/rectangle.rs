//! The rectangle builder: two opposite-corner clicks commit the four corner
//! points and the four perimeter segments of an axis-aligned rectangle on
//! the ground plane.

use vstd::prelude::*;

use crate::draw::CurrentDrawing;
use crate::draw::DrawMode;
use crate::draw::cleared;
use crate::draw::reset_drawing;
use crate::drawing::accumulate;
use crate::drawing::accumulated;
use crate::geometry::Point3;
use crate::geometry::corners_of_rect;
use crate::geometry::rect_corners;
use crate::reload::ReloadLevel;
use crate::shapes::CommittedShape;
use crate::shapes::Shape;
use crate::shapes::hard;

verus! {

/// What a finalized rectangle commits, given its four corners: a `Point` at
/// each corner, interleaved with the four perimeter `Segment`s that pair
/// corner `i` with corner `e`, where `e` starts at 3 and advances by 1
/// modulo 4 — the closed loop `c0–c3, c1–c0, c2–c1, c3–c2`, in that order
/// and winding.
pub open spec fn rect_emissions(c0: Point3, c1: Point3, c2: Point3, c3: Point3) -> Seq<
    CommittedShape,
> {
    seq![
        hard(Shape::Point { position: c0 }),
        hard(Shape::Segment { start: c0, end: c3 }),
        hard(Shape::Point { position: c1 }),
        hard(Shape::Segment { start: c1, end: c0 }),
        hard(Shape::Point { position: c2 }),
        hard(Shape::Segment { start: c2, end: c1 }),
        hard(Shape::Point { position: c3 }),
        hard(Shape::Segment { start: c3, end: c2 }),
    ]
}

/// One rectangle-mode tick. A right-click clears the buffer. A left-click
/// with a cursor point fills the first corner slot, then the opposite-corner
/// slot; once both are present the finalize rule commits the emissions of
/// [`rect_emissions`] over the corners of
/// [`crate::geometry::rect_corners`] and clears the buffer fully — a
/// rectangle does not chain.
pub open spec fn rectangle_step(
    d: CurrentDrawing,
    cursor: Option<Point3>,
    left: bool,
    right: bool,
) -> (CurrentDrawing, Seq<CommittedShape>) {
    if right {
        (cleared(), Seq::empty())
    } else if !left {
        (d, Seq::empty())
    } else {
        match cursor {
            None => (d, Seq::empty()),
            Some(c) => {
                let f = accumulated(d, DrawMode::Rectangle, c);
                match (f.slot0, f.slot1) {
                    (Some(s0), Some(s1)) => {
                        let (c0, c1, c2, c3) = rect_corners(s0, s1);
                        (cleared(), rect_emissions(c0, c1, c2, c3))
                    },
                    _ => (f, Seq::empty()),
                }
            },
        }
    }
}

/// Runs one rectangle-mode tick on the pending buffer.
pub fn handle_draw_rectangle(
    drawing: &mut CurrentDrawing,
    cursor: Option<Point3>,
    left: bool,
    right: bool,
) -> (emitted: Vec<CommittedShape>)
    requires
        old(drawing).wf(DrawMode::Rectangle),
    ensures
        *final(drawing) == rectangle_step(*old(drawing), cursor, left, right).0,
        emitted@ == rectangle_step(*old(drawing), cursor, left, right).1,
        final(drawing).wf(DrawMode::Rectangle),
{
    let mut emitted: Vec<CommittedShape> = Vec::new();
    if right {
        reset_drawing(drawing);
        return emitted;
    }
    if !left {
        return emitted;
    }
    let c = match cursor {
        Some(c) => c,
        None => {
            return emitted;
        },
    };
    accumulate(drawing, DrawMode::Rectangle, c);
    match (drawing.slot0, drawing.slot1) {
        (Some(s0), Some(s1)) => {
            let (c0, c1, c2, c3) = corners_of_rect(s0, s1);
            emitted.push(CommittedShape {
                shape: Shape::Point { position: c0 },
                level: ReloadLevel::Hard,
            });
            emitted.push(CommittedShape {
                shape: Shape::Segment { start: c0, end: c3 },
                level: ReloadLevel::Hard,
            });
            emitted.push(CommittedShape {
                shape: Shape::Point { position: c1 },
                level: ReloadLevel::Hard,
            });
            emitted.push(CommittedShape {
                shape: Shape::Segment { start: c1, end: c0 },
                level: ReloadLevel::Hard,
            });
            emitted.push(CommittedShape {
                shape: Shape::Point { position: c2 },
                level: ReloadLevel::Hard,
            });
            emitted.push(CommittedShape {
                shape: Shape::Segment { start: c2, end: c1 },
                level: ReloadLevel::Hard,
            });
            emitted.push(CommittedShape {
                shape: Shape::Point { position: c3 },
                level: ReloadLevel::Hard,
            });
            emitted.push(CommittedShape {
                shape: Shape::Segment { start: c3, end: c2 },
                level: ReloadLevel::Hard,
            });
            reset_drawing(drawing);
            proof {
                assert(emitted@ =~= rectangle_step(*old(drawing), cursor, left, right).1);
            }
        },
        _ => (),
    }
    emitted
}

} // verus!
