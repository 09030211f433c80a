//! The dot builder: a left-click commits a single point where the cursor is.

use vstd::prelude::*;

use crate::geometry::Point3;
use crate::reload::ReloadLevel;
use crate::shapes::CommittedShape;
use crate::shapes::Shape;
use crate::shapes::hard;

verus! {

/// What one dot-mode tick commits: on a left-click with a cursor point, a
/// single `Point` there; otherwise nothing. The pending buffer is never
/// touched — accumulate and finalize are the same step — and a right-click
/// is a no-op.
pub open spec fn dot_step(cursor: Option<Point3>, left: bool) -> Seq<CommittedShape> {
    match cursor {
        Some(c) => if left {
            seq![hard(Shape::Point { position: c })]
        } else {
            Seq::empty()
        },
        None => Seq::empty(),
    }
}

/// Runs one dot-mode tick.
pub fn handle_draw_dot(cursor: Option<Point3>, left: bool) -> (emitted: Vec<CommittedShape>)
    ensures
        emitted@ == dot_step(cursor, left),
{
    let mut emitted: Vec<CommittedShape> = Vec::new();
    if left {
        match cursor {
            Some(c) => {
                emitted.push(CommittedShape {
                    shape: Shape::Point { position: c },
                    level: ReloadLevel::Hard,
                });
                proof {
                    assert(emitted@ =~= dot_step(cursor, left));
                }
            },
            None => (),
        }
    }
    emitted
}

} // verus!
