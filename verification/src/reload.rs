//! Reload priorities: the tag a committed shape carries, and the ordering a
//! reload request uses to select which shapes to remove.

use vstd::prelude::*;

verus! {

/// How aggressively a reload must be asked for before it removes a shape.
/// `Soft` sorts below `Hard`: a soft reload removes only soft-tagged shapes,
/// a hard reload removes both.
#[derive(Clone, Copy, Debug, PartialEq, Eq, Structural)]
pub enum ReloadLevel {
    Soft,
    Hard,
}

/// The `Soft < Hard` order on reload levels, as a non-strict comparison.
pub open spec fn level_le(a: ReloadLevel, b: ReloadLevel) -> bool {
    a is Soft || b is Hard
}

impl ReloadLevel {
    /// Decides `self <= other` under the `Soft < Hard` order.
    pub fn le(self, other: ReloadLevel) -> (r: bool)
        ensures
            r == level_le(self, other),
    {
        match self {
            ReloadLevel::Soft => true,
            ReloadLevel::Hard => matches!(other, ReloadLevel::Hard),
        }
    }
}

} // verus!
