//! Preview derivation: a pure, read-only view of the shape still under
//! construction, recomputed and discarded every tick.

use vstd::prelude::*;

use crate::draw::CurrentDrawing;
use crate::draw::DrawMode;
use crate::geometry::Point3;
use crate::geometry::corners_of_rect;
use crate::geometry::rect_corners;

verus! {

/// The transient primitive shown while a shape is incomplete. At most one
/// exists per tick; the renderer draws it and throws it away.
///
/// A `Circle` preview carries the rim point instead of a radius, and an
/// `ArcGuide` carries the point its guide circle passes through, so the
/// renderer derives the (generally irrational) radii itself.
#[derive(Clone, Copy, Debug, PartialEq, Eq)]
pub enum PreviewPrimitive {
    /// A segment from the fixed start to the cursor.
    Segment { start: Point3, end: Point3 },
    /// The four-corner perimeter loop of a rectangle in progress, paired as
    /// in [`crate::shapes::rect_edge_pairs`].
    Loop { corners: (Point3, Point3, Point3, Point3) },
    /// A circle in progress: its center and the point under the cursor on
    /// its rim.
    Circle { center: Point3, rim: Point3 },
    /// An arc in progress: a guide circle through `rim` around `center`, a
    /// guide segment from the center to `rim`, and — once the arc's start
    /// point is fixed, so that `rim` no longer follows the pointer — a
    /// second guide segment from the center to the cursor.
    ArcGuide { center: Point3, rim: Point3, cursor_guide: Option<Point3> },
}

/// The preview for the given mode, pending buffer and cursor point: absent
/// while no cursor point or no first pending point exists, and absent in dot
/// mode, where commits are instantaneous. The cursor stands in for every
/// vertex not yet clicked.
pub open spec fn preview_of(
    mode: DrawMode,
    d: CurrentDrawing,
    cursor: Option<Point3>,
) -> Option<PreviewPrimitive> {
    match (cursor, d.slot0) {
        (Some(c), Some(s0)) => match mode {
            DrawMode::Inactive => None,
            DrawMode::Dot => None,
            DrawMode::Line => Some(PreviewPrimitive::Segment { start: s0, end: c }),
            DrawMode::Rectangle => Some(
                PreviewPrimitive::Loop { corners: rect_corners(s0, c) },
            ),
            DrawMode::Circle => Some(PreviewPrimitive::Circle { center: s0, rim: c }),
            DrawMode::Arc => match d.slot1 {
                Some(s1) => Some(
                    PreviewPrimitive::ArcGuide { center: s0, rim: s1, cursor_guide: Some(c) },
                ),
                None => Some(
                    PreviewPrimitive::ArcGuide { center: s0, rim: c, cursor_guide: None },
                ),
            },
        },
        _ => None,
    }
}

/// Derives this tick's preview. Reads the state only: the committed shapes
/// and the pending buffer are untouched.
pub fn derive_preview(
    mode: DrawMode,
    d: &CurrentDrawing,
    cursor: Option<Point3>,
) -> (r: Option<PreviewPrimitive>)
    ensures
        r == preview_of(mode, *d, cursor),
{
    let c = match cursor {
        Some(c) => c,
        None => {
            return None;
        },
    };
    let s0 = match d.slot0 {
        Some(s0) => s0,
        None => {
            return None;
        },
    };
    match mode {
        DrawMode::Inactive => None,
        DrawMode::Dot => None,
        DrawMode::Line => Some(PreviewPrimitive::Segment { start: s0, end: c }),
        DrawMode::Rectangle => Some(PreviewPrimitive::Loop { corners: corners_of_rect(s0, c) }),
        DrawMode::Circle => Some(PreviewPrimitive::Circle { center: s0, rim: c }),
        DrawMode::Arc => match d.slot1 {
            Some(s1) => Some(
                PreviewPrimitive::ArcGuide { center: s0, rim: s1, cursor_guide: Some(c) },
            ),
            None => Some(PreviewPrimitive::ArcGuide { center: s0, rim: c, cursor_guide: None }),
        },
    }
}

} // verus!
