//! The drawing state: the active mode, the pending-point buffer with its
//! polyline chain counter, and the operations that clear or retarget them.

use vstd::prelude::*;

use crate::drawing::arc::arc_step;
use crate::drawing::arc::handle_draw_arc;
use crate::drawing::circle::circle_step;
use crate::drawing::circle::handle_draw_circle;
use crate::drawing::dot::dot_step;
use crate::drawing::dot::handle_draw_dot;
use crate::drawing::line::handle_draw_line;
use crate::drawing::line::line_step;
use crate::drawing::rectangle::handle_draw_rectangle;
use crate::drawing::rectangle::rectangle_step;
use crate::geometry::Point3;
use crate::preview::PreviewPrimitive;
use crate::preview::derive_preview;
use crate::preview::preview_of;
use crate::shapes::CommittedShape;

verus! {

/// The shape kind currently being constructed, or `Inactive` when no drawing
/// is in progress. Exactly one mode is active at a time.
#[derive(Clone, Copy, Debug, PartialEq, Eq, Structural)]
pub enum DrawMode {
    Inactive,
    Dot,
    Line,
    Rectangle,
    Circle,
    Arc,
}

/// How many pending points a mode needs before it can finalize a shape.
pub open spec fn arity(mode: DrawMode) -> int {
    match mode {
        DrawMode::Inactive => 0,
        DrawMode::Dot => 1,
        DrawMode::Line => 2,
        DrawMode::Rectangle => 2,
        DrawMode::Circle => 2,
        DrawMode::Arc => 3,
    }
}

impl DrawMode {
    /// The number of pending-point slots this mode uses.
    pub fn arity(self) -> (n: usize)
        ensures
            n == arity(self),
    {
        match self {
            DrawMode::Inactive => 0,
            DrawMode::Dot => 1,
            DrawMode::Line => 2,
            DrawMode::Rectangle => 2,
            DrawMode::Circle => 2,
            DrawMode::Arc => 3,
        }
    }
}

/// The world-space point under the pointer this tick, or `None` when the
/// pointer has no valid ground-plane intersection. Supplied each tick by the
/// cursor-projection collaborator.
#[derive(Clone, Copy, Debug, PartialEq, Eq, Structural)]
pub struct Cursor {
    pub position: Option<Point3>,
}

/// The number of segments already committed in the current uninterrupted
/// line-mode chain. Reset to 0 whenever the pending buffer is cleared.
#[derive(Clone, Copy, Debug, PartialEq, Eq, Structural)]
pub struct LineChain {
    pub count: u32,
}

/// The pending-point buffer: one optional slot per vertex still to be
/// clicked, filled in order, plus the line-chain counter. This is the only
/// mutable state of the construction core.
#[derive(Clone, Copy, Debug, PartialEq, Eq, Structural)]
pub struct CurrentDrawing {
    pub slot0: Option<Point3>,
    pub slot1: Option<Point3>,
    pub slot2: Option<Point3>,
    pub chain: LineChain,
}

/// The fully absent buffer: every slot empty, chain counter 0.
pub open spec fn cleared() -> CurrentDrawing {
    (CurrentDrawing { slot0: None, slot1: None, slot2: None, chain: (LineChain { count: 0 }) })
}

/// How many slots of the buffer are occupied.
pub open spec fn occupied(d: CurrentDrawing) -> int {
    (if d.slot0 is Some { 1int } else { 0int })
        + (if d.slot1 is Some { 1int } else { 0int })
        + (if d.slot2 is Some { 1int } else { 0int })
}

impl CurrentDrawing {
    /// Slots are filled front to back: a later slot is occupied only if every
    /// earlier slot is.
    pub open spec fn filled_in_order(self) -> bool {
        &&& (self.slot1 is Some ==> self.slot0 is Some)
        &&& (self.slot2 is Some ==> self.slot1 is Some)
    }

    /// The buffer invariant relative to the active mode: slots beyond the
    /// mode's arity are absent, the occupied slots form a prefix, the
    /// occupied count never exceeds the arity, and the chain counter is 0
    /// outside line mode.
    pub open spec fn wf(self, mode: DrawMode) -> bool {
        &&& self.filled_in_order()
        &&& (arity(mode) < 1 ==> self.slot0 is None)
        &&& (arity(mode) < 2 ==> self.slot1 is None)
        &&& (arity(mode) < 3 ==> self.slot2 is None)
        &&& occupied(self) <= arity(mode)
        &&& (!(mode is Line) ==> self.chain.count == 0)
    }

    /// Sets every slot absent and the chain counter to 0.
    pub fn clear(&mut self)
        ensures
            *final(self) == cleared(),
    {
        self.slot0 = None;
        self.slot1 = None;
        self.slot2 = None;
        self.chain = LineChain { count: 0 };
    }

    /// Reads slot `i`.
    pub fn slot(&self, i: usize) -> (r: Option<Point3>)
        requires
            i < 3,
        ensures
            r == self.spec_slot(i as int),
    {
        match i {
            0 => self.slot0,
            1 => self.slot1,
            _ => self.slot2,
        }
    }

    /// Slot `i` of the buffer.
    pub open spec fn spec_slot(self, i: int) -> Option<Point3> {
        if i == 0 {
            self.slot0
        } else if i == 1 {
            self.slot1
        } else {
            self.slot2
        }
    }

    /// Fills slot `i`, which must be within the active mode's arity and
    /// currently absent.
    pub fn set_slot(&mut self, i: usize, mode: DrawMode, p: Point3)
        requires
            i < arity(mode),
            old(self).spec_slot(i as int) is None,
        ensures
            final(self).spec_slot(i as int) == Some(p),
            forall|j: int| 0 <= j < 3 && j != i ==> final(self).spec_slot(j) == old(self).spec_slot(j),
            final(self).chain == old(self).chain,
    {
        match i {
            0 => self.slot0 = Some(p),
            1 => self.slot1 = Some(p),
            _ => self.slot2 = Some(p),
        }
    }

    /// Whether all of the mode's slots are occupied.
    pub fn is_full(&self, mode: DrawMode) -> (r: bool)
        requires
            self.wf(mode),
        ensures
            r == (occupied(*self) == arity(mode)),
    {
        match mode {
            DrawMode::Inactive => true,
            DrawMode::Dot => self.slot0.is_some(),
            DrawMode::Line => self.slot1.is_some(),
            DrawMode::Rectangle => self.slot1.is_some(),
            DrawMode::Circle => self.slot1.is_some(),
            DrawMode::Arc => self.slot2.is_some(),
        }
    }
}

impl Default for CurrentDrawing {
    /// A freshly created buffer is fully absent.
    fn default() -> (d: CurrentDrawing)
        ensures
            d == cleared(),
    {
        CurrentDrawing { slot0: None, slot1: None, slot2: None, chain: LineChain { count: 0 } }
    }
}

/// The whole construction core: the active mode and the pending buffer it
/// owns.
#[derive(Clone, Copy, Debug, PartialEq, Eq, Structural)]
pub struct DrawingState {
    pub mode: DrawMode,
    pub drawing: CurrentDrawing,
}

impl DrawingState {
    /// The state invariant: the buffer is well-formed for the active mode.
    /// In particular the occupied-slot count never exceeds the mode's arity.
    pub open spec fn inv(self) -> bool {
        self.drawing.wf(self.mode)
    }

    /// The startup state: no mode active, buffer fully absent.
    pub fn new() -> (s: DrawingState)
        ensures
            s == (DrawingState { mode: DrawMode::Inactive, drawing: cleared() }),
            s.inv(),
    {
        DrawingState { mode: DrawMode::Inactive, drawing: CurrentDrawing::default() }
    }
}

/// The state after a drawing reset: the buffer is fully cleared, the mode is
/// untouched.
pub open spec fn after_reset(s: DrawingState) -> DrawingState {
    (DrawingState { mode: s.mode, drawing: cleared() })
}

/// Clears the pending buffer and the chain counter. The reload coordinator
/// calls this in the same operation that removes committed shapes, so no
/// stale in-progress state can outlive them; the active mode is unaffected.
pub fn reset_drawing(drawing: &mut CurrentDrawing)
    ensures
        *final(drawing) == cleared(),
{
    reset_current_drawing(drawing);
    drawing.chain = LineChain { count: 0 };
}

/// Sets every pending slot absent, leaving the chain counter alone.
pub fn reset_current_drawing(drawing: &mut CurrentDrawing)
    ensures
        *final(drawing) == (CurrentDrawing {
            slot0: None,
            slot1: None,
            slot2: None,
            chain: old(drawing).chain,
        }),
{
    drawing.slot0 = None;
    drawing.slot1 = None;
    drawing.slot2 = None;
}

/// Switches to `requested`, unconditionally clearing the pending buffer and
/// the chain counter first — even when `requested` equals the current mode.
/// Committed shapes are unaffected.
pub fn set_mode(state: &mut DrawingState, requested: DrawMode)
    ensures
        *final(state) == (DrawingState { mode: requested, drawing: cleared() }),
        final(state).inv(),
{
    reset_drawing(&mut state.drawing);
    state.mode = requested;
}

/// Applies at most one mode change for this tick: escape selects no mode;
/// otherwise a pressed mode key selects its mode; otherwise nothing changes.
pub open spec fn mode_change(
    s: DrawingState,
    escape: bool,
    key: Option<DrawMode>,
) -> DrawingState {
    if escape {
        (DrawingState { mode: DrawMode::Inactive, drawing: cleared() })
    } else {
        match key {
            Some(m) => (DrawingState { mode: m, drawing: cleared() }),
            None => s,
        }
    }
}

/// Handles this tick's mode-key input: `escape` abandons drawing entirely
/// (mode becomes `Inactive`); otherwise `key` — the mode whose key was just
/// pressed, if any — becomes active. Any change goes through [`set_mode`],
/// so the pending buffer is cleared first.
pub fn change_draw_mode(state: &mut DrawingState, escape: bool, key: Option<DrawMode>)
    requires
        old(state).inv(),
    ensures
        *final(state) == mode_change(*old(state), escape, key),
        final(state).inv(),
{
    if escape {
        set_mode(state, DrawMode::Inactive);
    } else {
        match key {
            Some(m) => set_mode(state, m),
            None => (),
        }
    }
}

/// One click-handling step of the active builder: what the pending buffer
/// becomes and what is committed, in order. With no mode active the tick is
/// a no-op.
pub open spec fn drawing_step(
    mode: DrawMode,
    d: CurrentDrawing,
    cursor: Option<Point3>,
    left: bool,
    right: bool,
) -> (CurrentDrawing, Seq<CommittedShape>) {
    match mode {
        DrawMode::Inactive => (d, Seq::empty()),
        DrawMode::Dot => (d, dot_step(cursor, left)),
        DrawMode::Line => line_step(d, cursor, left, right),
        DrawMode::Rectangle => rectangle_step(d, cursor, left, right),
        DrawMode::Circle => circle_step(d, cursor, left, right),
        DrawMode::Arc => arc_step(d, cursor, left, right),
    }
}

/// Runs the active builder for this tick's click signals and cursor point,
/// returning the shapes it committed in emission order. The mode itself is
/// never changed here.
pub fn handle_drawing(
    state: &mut DrawingState,
    cursor: Option<Point3>,
    left: bool,
    right: bool,
) -> (emitted: Vec<CommittedShape>)
    requires
        old(state).inv(),
        old(state).drawing.chain.count < u32::MAX,
    ensures
        final(state).mode == old(state).mode,
        final(state).drawing == drawing_step(
            old(state).mode,
            old(state).drawing,
            cursor,
            left,
            right,
        ).0,
        emitted@ == drawing_step(old(state).mode, old(state).drawing, cursor, left, right).1,
        final(state).inv(),
{
    match state.mode {
        DrawMode::Inactive => Vec::new(),
        DrawMode::Dot => handle_draw_dot(cursor, left),
        DrawMode::Line => handle_draw_line(&mut state.drawing, cursor, left, right),
        DrawMode::Rectangle => handle_draw_rectangle(&mut state.drawing, cursor, left, right),
        DrawMode::Circle => handle_draw_circle(&mut state.drawing, cursor, left, right),
        DrawMode::Arc => handle_draw_arc(&mut state.drawing, cursor, left, right),
    }
}

/// Everything the collaborators report for one tick: the mode-key signals,
/// the two click signals, and what the cursor provider sees.
#[derive(Clone, Copy, Debug, PartialEq, Eq, Structural)]
pub struct TickInput {
    pub escape: bool,
    pub mode_key: Option<DrawMode>,
    pub left_click: bool,
    pub right_click: bool,
    pub cursor: Cursor,
}

/// One whole tick, in the fixed intra-tick order: first the mode change, if
/// any; then the active builder's click handling; the preview is derived
/// last, from the state the clicks left behind.
pub open spec fn tick_step(s: DrawingState, input: TickInput) -> (
    DrawingState,
    Seq<CommittedShape>,
    Option<PreviewPrimitive>,
) {
    let s1 = mode_change(s, input.escape, input.mode_key);
    let (d2, emitted) = drawing_step(
        s1.mode,
        s1.drawing,
        input.cursor.position,
        input.left_click,
        input.right_click,
    );
    (
        (DrawingState { mode: s1.mode, drawing: d2 }),
        emitted,
        preview_of(s1.mode, d2, input.cursor.position),
    )
}

/// Advances the construction core by one tick: applies at most one mode
/// change, lets the active builder consume this tick's clicks, and returns
/// the shapes committed this tick together with the preview to show until
/// the next one.
pub fn tick(state: &mut DrawingState, input: TickInput) -> (r: (
    Vec<CommittedShape>,
    Option<PreviewPrimitive>,
))
    requires
        old(state).inv(),
        old(state).drawing.chain.count < u32::MAX,
    ensures
        *final(state) == tick_step(*old(state), input).0,
        r.0@ == tick_step(*old(state), input).1,
        r.1 == tick_step(*old(state), input).2,
        final(state).inv(),
{
    change_draw_mode(state, input.escape, input.mode_key);
    let emitted = handle_drawing(state, input.cursor.position, input.left_click, input.right_click);
    let preview = derive_preview(state.mode, &state.drawing, input.cursor.position);
    (emitted, preview)
}

} // verus!
