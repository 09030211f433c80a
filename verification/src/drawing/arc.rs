//! The arc builder: a center click, a start click and an end click commit an
//! arc record.

use vstd::prelude::*;

use crate::draw::CurrentDrawing;
use crate::draw::DrawMode;
use crate::draw::cleared;
use crate::draw::reset_drawing;
use crate::drawing::accumulate;
use crate::drawing::accumulated;
use crate::geometry::Point3;
use crate::reload::ReloadLevel;
use crate::shapes::CommittedShape;
use crate::shapes::Shape;
use crate::shapes::hard;

verus! {

/// One arc-mode tick. A right-click clears the buffer. A left-click with a
/// cursor point fills the center, start and end slots in order; once all
/// three are present the finalize rule commits a `Point` at the center and
/// the `Arc` record of the three points, then clears the buffer fully.
pub open spec fn arc_step(
    d: CurrentDrawing,
    cursor: Option<Point3>,
    left: bool,
    right: bool,
) -> (CurrentDrawing, Seq<CommittedShape>) {
    if right {
        (cleared(), Seq::empty())
    } else if !left {
        (d, Seq::empty())
    } else {
        match cursor {
            None => (d, Seq::empty()),
            Some(c) => {
                let f = accumulated(d, DrawMode::Arc, c);
                match (f.slot0, f.slot1, f.slot2) {
                    (Some(s0), Some(s1), Some(s2)) => {
                        let emitted = seq![
                            hard(Shape::Point { position: s0 }),
                            hard(Shape::Arc { center: s0, start: s1, end: s2 }),
                        ];
                        (cleared(), emitted)
                    },
                    _ => (f, Seq::empty()),
                }
            },
        }
    }
}

/// Runs one arc-mode tick on the pending buffer.
pub fn handle_draw_arc(
    drawing: &mut CurrentDrawing,
    cursor: Option<Point3>,
    left: bool,
    right: bool,
) -> (emitted: Vec<CommittedShape>)
    requires
        old(drawing).wf(DrawMode::Arc),
    ensures
        *final(drawing) == arc_step(*old(drawing), cursor, left, right).0,
        emitted@ == arc_step(*old(drawing), cursor, left, right).1,
        final(drawing).wf(DrawMode::Arc),
{
    let mut emitted: Vec<CommittedShape> = Vec::new();
    if right {
        reset_drawing(drawing);
        return emitted;
    }
    if !left {
        return emitted;
    }
    let c = match cursor {
        Some(c) => c,
        None => {
            return emitted;
        },
    };
    accumulate(drawing, DrawMode::Arc, c);
    match (drawing.slot0, drawing.slot1, drawing.slot2) {
        (Some(s0), Some(s1), Some(s2)) => {
            emitted.push(CommittedShape {
                shape: Shape::Point { position: s0 },
                level: ReloadLevel::Hard,
            });
            emitted.push(CommittedShape {
                shape: Shape::Arc { center: s0, start: s1, end: s2 },
                level: ReloadLevel::Hard,
            });
            reset_drawing(drawing);
            proof {
                assert(emitted@ =~= arc_step(*old(drawing), cursor, left, right).1);
            }
        },
        _ => (),
    }
    emitted
}

} // verus!
