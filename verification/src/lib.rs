//! An interactive shape-construction core: a drawing mode is selected, points
//! are clicked on a ground plane, and the core assembles them into committed
//! shapes (dots, chained line segments, rectangles, circles, arcs) while a
//! transient preview describes the shape still under construction.
//!
//! The crate holds only the construction state machine: mode switching, the
//! pending-point buffer, the per-mode accumulate/finalize rules, and the
//! preview derivation. Pointer projection, event capture and rendering are
//! collaborators that feed the machine plain values and consume what it emits.

pub mod draw;
pub mod drawing;
pub mod geometry;
pub mod laws;
pub mod preview;
pub mod reload;
pub mod shapes;
