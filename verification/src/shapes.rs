//! Committed shapes: the immutable records a finalize step hands to the
//! collaborator that stores and renders them.

use vstd::prelude::*;

use crate::geometry::Point3;
use crate::geometry::corners_of_rect;
use crate::geometry::rect_corners;
use crate::reload::ReloadLevel;
use crate::reload::level_le;

verus! {

/// The geometric payload of a committed shape.
///
/// A `Circle` records the exact squared radius (see
/// [`crate::geometry::dist_sq`]). An `Arc` records only its three defining
/// points — center, start and end; deriving the swept angle from them is
/// deliberately left to the renderer, so the record stays exact.
#[derive(Clone, Copy, Debug, PartialEq, Eq)]
pub enum Shape {
    Point { position: Point3 },
    Segment { start: Point3, end: Point3 },
    Polygon { corners: (Point3, Point3, Point3, Point3), edges: ((usize, usize), (usize, usize), (usize, usize), (usize, usize)) },
    Circle { center: Point3, radius_sq: u128 },
    Arc { center: Point3, start: Point3, end: Point3 },
}

/// A finalized shape together with the reload priority it carries.
/// Ownership passes to the committed-shape sink as soon as it is emitted.
#[derive(Clone, Copy, Debug, PartialEq, Eq)]
pub struct CommittedShape {
    pub shape: Shape,
    pub level: ReloadLevel,
}

/// A shape as the construction core commits it: every shape this core
/// finalizes carries the `Hard` reload priority.
pub open spec fn hard(shape: Shape) -> CommittedShape {
    (CommittedShape { shape, level: ReloadLevel::Hard })
}

/// The fixed perimeter pairing of a rectangle's corners: corner `i` is paired
/// with corner `e`, where `e` starts at 3 and advances by 1 modulo 4.
pub open spec fn rect_edge_pairs() -> ((usize, usize), (usize, usize), (usize, usize), (usize, usize)) {
    ((0, 3), (1, 0), (2, 1), (3, 2))
}

/// The polygon committed for a rectangle spanned by opposite corners `s0` and
/// `s1`: its four corners and the closed perimeter loop over them.
pub fn rectangle_polygon(s0: Point3, s1: Point3) -> (r: Shape)
    ensures
        r == (Shape::Polygon { corners: rect_corners(s0, s1), edges: rect_edge_pairs() }),
{
    Shape::Polygon {
        corners: corners_of_rect(s0, s1),
        edges: ((0, 3), (1, 0), (2, 1), (3, 2)),
    }
}

/// Selects the committed shapes a reload at `level` removes: exactly those
/// whose own priority is at or below the requested level, in their stored
/// order.
pub fn query_committed_shapes_at_or_below(
    shapes: &Vec<CommittedShape>,
    level: ReloadLevel,
) -> (r: Vec<CommittedShape>)
    ensures
        r@ == shapes@.filter(|s: CommittedShape| level_le(s.level, level)),
{
    let mut r: Vec<CommittedShape> = Vec::new();
    let mut i: usize = 0;
    while i < shapes.len()
        invariant
            i <= shapes.len(),
            r@ == shapes@.take(i as int).filter(|s: CommittedShape| level_le(s.level, level)),
        decreases shapes.len() - i,
    {
        proof {
            reveal_with_fuel(Seq::filter, 2);
            assert(shapes@.take(i + 1 as int).drop_last() == shapes@.take(i as int));
            assert(shapes@.take(i + 1 as int).last() == shapes@[i as int]);
        }
        let s = shapes[i];
        if s.level.le(level) {
            r.push(s);
        }
        i += 1;
    }
    proof {
        assert(shapes@.take(shapes@.len() as int) == shapes@);
    }
    r
}

} // verus!
