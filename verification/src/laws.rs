//! The core's global guarantees, stated and proved over the step relations
//! themselves: the buffer invariant is preserved by every tick, resetting is
//! idempotent, and a tick without a cursor point accumulates nothing.

use vstd::prelude::*;

use crate::draw::CurrentDrawing;
use crate::draw::DrawMode;
use crate::draw::DrawingState;
use crate::draw::TickInput;
use crate::draw::after_reset;
use crate::draw::arity;
use crate::draw::drawing_step;
use crate::draw::mode_change;
use crate::draw::occupied;
use crate::draw::tick_step;
use crate::geometry::Point3;
use crate::shapes::CommittedShape;

verus! {

/// The pending-buffer invariant survives any single builder step: however
/// the active mode's builder consumes this tick's clicks, the buffer stays
/// well-formed, and in particular its occupied-slot count never exceeds the
/// mode's arity.
pub proof fn lemma_drawing_step_preserves_wf(
    mode: DrawMode,
    d: CurrentDrawing,
    cursor: Option<Point3>,
    left: bool,
    right: bool,
)
    requires
        d.wf(mode),
        d.chain.count < u32::MAX,
    ensures
        drawing_step(mode, d, cursor, left, right).0.wf(mode),
        occupied(drawing_step(mode, d, cursor, left, right).0) <= arity(mode),
{
}

/// The whole-tick invariant: a tick applies at most one mode change and one
/// builder step, and the state stays well-formed across both — so at every
/// tick boundary the occupied pending-slot count is at most the arity of
/// whatever mode is then active.
pub proof fn lemma_tick_preserves_inv(s: DrawingState, input: TickInput)
    requires
        s.inv(),
        s.drawing.chain.count < u32::MAX,
    ensures
        tick_step(s, input).0.inv(),
        occupied(tick_step(s, input).0.drawing) <= arity(tick_step(s, input).0.mode),
{
    let s1 = mode_change(s, input.escape, input.mode_key);
    lemma_drawing_step_preserves_wf(
        s1.mode,
        s1.drawing,
        input.cursor.position,
        input.left_click,
        input.right_click,
    );
}

/// Resetting the drawing twice in a row has exactly the observable effect of
/// resetting it once: the buffer ends fully absent with the chain counter 0,
/// the mode is untouched, and nothing is emitted either time.
pub proof fn lemma_reset_drawing_idempotent(s: DrawingState)
    ensures
        after_reset(after_reset(s)) == after_reset(s),
{
}

/// A tick on which the cursor reports no point, and which neither
/// right-click-cancels nor changes mode, leaves the pending buffer and the
/// chain counter exactly as they were and commits nothing: the would-be
/// accumulate step is skipped as if no click had occurred.
pub proof fn lemma_no_cursor_tick_is_noop(s: DrawingState, input: TickInput)
    requires
        input.cursor.position is None,
        !input.right_click,
        !input.escape,
        input.mode_key is None,
    ensures
        tick_step(s, input).0 == s,
        tick_step(s, input).1 == Seq::<CommittedShape>::empty(),
{
}

/// The builder-step form of the no-cursor guarantee, for every mode and
/// click combination short of a right-click cancel: without a cursor point
/// the buffer is byte-for-byte unchanged and nothing is committed.
pub proof fn lemma_no_cursor_step_is_noop(mode: DrawMode, d: CurrentDrawing, left: bool)
    ensures
        drawing_step(mode, d, None, left, false).0 == d,
        drawing_step(mode, d, None, left, false).1 == Seq::<CommittedShape>::empty(),
{
}

} // verus!
