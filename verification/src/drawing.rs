//! The shape builders, one per drawing mode: each consumes this tick's click
//! signals and cursor point, mutates the pending buffer, and emits the
//! committed shapes its finalize rule produces.

use vstd::prelude::*;

use crate::draw::CurrentDrawing;
use crate::draw::DrawMode;
use crate::draw::arity;
use crate::geometry::Point3;

pub mod arc;
pub mod circle;
pub mod dot;
pub mod line;
pub mod rectangle;

verus! {

/// The buffer after one accumulate step: the first absent slot within the
/// mode's arity receives the point; a buffer already full for its mode is
/// unchanged. The chain counter is untouched.
pub open spec fn accumulated(d: CurrentDrawing, mode: DrawMode, c: Point3) -> CurrentDrawing {
    if d.slot0 is None && arity(mode) >= 1 {
        (CurrentDrawing { slot0: Some(c), ..d })
    } else if d.slot0 is Some && d.slot1 is None && arity(mode) >= 2 {
        (CurrentDrawing { slot1: Some(c), ..d })
    } else if d.slot0 is Some && d.slot1 is Some && d.slot2 is None && arity(mode) >= 3 {
        (CurrentDrawing { slot2: Some(c), ..d })
    } else {
        d
    }
}

/// Fills the next absent pending slot with the cursor point `c`, if the
/// active mode still has one to fill.
pub fn accumulate(d: &mut CurrentDrawing, mode: DrawMode, c: Point3)
    requires
        old(d).wf(mode),
    ensures
        *final(d) == accumulated(*old(d), mode, c),
        final(d).wf(mode),
{
    let a = mode.arity();
    if d.slot0.is_none() && a >= 1 {
        d.slot0 = Some(c);
    } else if d.slot0.is_some() && d.slot1.is_none() && a >= 2 {
        d.slot1 = Some(c);
    } else if d.slot0.is_some() && d.slot1.is_some() && d.slot2.is_none() && a >= 3 {
        d.slot2 = Some(c);
    }
}

} // verus!
