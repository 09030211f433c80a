//! The line builder: pairs of clicks commit chained segments, each finished
//! segment's end point becoming the start of the next one.

use vstd::prelude::*;

use crate::draw::CurrentDrawing;
use crate::draw::DrawMode;
use crate::draw::LineChain;
use crate::draw::cleared;
use crate::draw::reset_drawing;
use crate::drawing::accumulate;
use crate::drawing::accumulated;
use crate::geometry::Point3;
use crate::reload::ReloadLevel;
use crate::shapes::CommittedShape;
use crate::shapes::Shape;
use crate::shapes::hard;

verus! {

/// One line-mode tick. A right-click cancels the whole chain (buffer and
/// chain counter cleared). A left-click with a cursor point fills the next
/// absent slot; once both slots are present the finalize rule commits, in
/// order: the first chain vertex as a `Point` (only when the chain counter
/// is still 0), the end vertex as a `Point`, and the `Segment` between them.
/// The end point then moves into the first slot, the second slot empties,
/// and the chain counter grows by one — the chaining exception to the usual
/// full clear after finalize.
pub open spec fn line_step(
    d: CurrentDrawing,
    cursor: Option<Point3>,
    left: bool,
    right: bool,
) -> (CurrentDrawing, Seq<CommittedShape>) {
    if right {
        (cleared(), Seq::empty())
    } else if !left {
        (d, Seq::empty())
    } else {
        match cursor {
            None => (d, Seq::empty()),
            Some(c) => {
                let f = accumulated(d, DrawMode::Line, c);
                match (f.slot0, f.slot1) {
                    (Some(s0), Some(s1)) => {
                        let first_vertex: Seq<CommittedShape> = if d.chain.count == 0 {
                            seq![hard(Shape::Point { position: s0 })]
                        } else {
                            Seq::empty()
                        };
                        let emitted = first_vertex + seq![
                            hard(Shape::Point { position: s1 }),
                            hard(Shape::Segment { start: s0, end: s1 }),
                        ];
                        let next = (CurrentDrawing {
                            slot0: Some(s1),
                            slot1: None,
                            slot2: f.slot2,
                            chain: (LineChain { count: (d.chain.count + 1) as u32 }),
                        });
                        (next, emitted)
                    },
                    _ => (f, Seq::empty()),
                }
            },
        }
    }
}

/// Runs one line-mode tick on the pending buffer.
pub fn handle_draw_line(
    drawing: &mut CurrentDrawing,
    cursor: Option<Point3>,
    left: bool,
    right: bool,
) -> (emitted: Vec<CommittedShape>)
    requires
        old(drawing).wf(DrawMode::Line),
        old(drawing).chain.count < u32::MAX,
    ensures
        *final(drawing) == line_step(*old(drawing), cursor, left, right).0,
        emitted@ == line_step(*old(drawing), cursor, left, right).1,
        final(drawing).wf(DrawMode::Line),
{
    let mut emitted: Vec<CommittedShape> = Vec::new();
    if right {
        reset_drawing(drawing);
        return emitted;
    }
    if !left {
        return emitted;
    }
    let c = match cursor {
        Some(c) => c,
        None => {
            return emitted;
        },
    };
    accumulate(drawing, DrawMode::Line, c);
    match (drawing.slot0, drawing.slot1) {
        (Some(s0), Some(s1)) => {
            if drawing.chain.count == 0 {
                emitted.push(CommittedShape {
                    shape: Shape::Point { position: s0 },
                    level: ReloadLevel::Hard,
                });
            }
            emitted.push(CommittedShape {
                shape: Shape::Point { position: s1 },
                level: ReloadLevel::Hard,
            });
            emitted.push(CommittedShape {
                shape: Shape::Segment { start: s0, end: s1 },
                level: ReloadLevel::Hard,
            });
            drawing.slot0 = Some(s1);
            drawing.slot1 = None;
            drawing.chain = LineChain { count: drawing.chain.count + 1 };
            proof {
                assert(emitted@ =~= line_step(*old(drawing), cursor, left, right).1);
            }
        },
        _ => (),
    }
    emitted
}

} // verus!
