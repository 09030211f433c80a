//! The circle builder: a center click and a rim click commit a circle.

use vstd::prelude::*;

use crate::draw::CurrentDrawing;
use crate::draw::DrawMode;
use crate::draw::cleared;
use crate::draw::reset_drawing;
use crate::drawing::accumulate;
use crate::drawing::accumulated;
use crate::geometry::Point3;
use crate::geometry::dist_sq;
use crate::geometry::distance_squared;
use crate::reload::ReloadLevel;
use crate::shapes::CommittedShape;
use crate::shapes::Shape;
use crate::shapes::hard;

verus! {

/// One circle-mode tick. A right-click clears the buffer. A left-click with
/// a cursor point fills the center slot, then the rim slot; once both are
/// present the finalize rule commits a `Point` at the center and a `Circle`
/// whose squared radius is the exact squared distance from rim to center,
/// then clears the buffer fully.
pub open spec fn circle_step(
    d: CurrentDrawing,
    cursor: Option<Point3>,
    left: bool,
    right: bool,
) -> (CurrentDrawing, Seq<CommittedShape>) {
    if right {
        (cleared(), Seq::empty())
    } else if !left {
        (d, Seq::empty())
    } else {
        match cursor {
            None => (d, Seq::empty()),
            Some(c) => {
                let f = accumulated(d, DrawMode::Circle, c);
                match (f.slot0, f.slot1) {
                    (Some(s0), Some(s1)) => {
                        let emitted = seq![
                            hard(Shape::Point { position: s0 }),
                            hard(Shape::Circle {
                                center: s0,
                                radius_sq: dist_sq(s1, s0) as u128,
                            }),
                        ];
                        (cleared(), emitted)
                    },
                    _ => (f, Seq::empty()),
                }
            },
        }
    }
}

/// Runs one circle-mode tick on the pending buffer.
pub fn handle_draw_circle(
    drawing: &mut CurrentDrawing,
    cursor: Option<Point3>,
    left: bool,
    right: bool,
) -> (emitted: Vec<CommittedShape>)
    requires
        old(drawing).wf(DrawMode::Circle),
    ensures
        *final(drawing) == circle_step(*old(drawing), cursor, left, right).0,
        emitted@ == circle_step(*old(drawing), cursor, left, right).1,
        final(drawing).wf(DrawMode::Circle),
{
    let mut emitted: Vec<CommittedShape> = Vec::new();
    if right {
        reset_drawing(drawing);
        return emitted;
    }
    if !left {
        return emitted;
    }
    let c = match cursor {
        Some(c) => c,
        None => {
            return emitted;
        },
    };
    accumulate(drawing, DrawMode::Circle, c);
    match (drawing.slot0, drawing.slot1) {
        (Some(s0), Some(s1)) => {
            emitted.push(CommittedShape {
                shape: Shape::Point { position: s0 },
                level: ReloadLevel::Hard,
            });
            emitted.push(CommittedShape {
                shape: Shape::Circle { center: s0, radius_sq: distance_squared(s1, s0) },
                level: ReloadLevel::Hard,
            });
            reset_drawing(drawing);
            proof {
                assert(emitted@ =~= circle_step(*old(drawing), cursor, left, right).1);
            }
        },
        _ => (),
    }
    emitted
}

} // verus!
