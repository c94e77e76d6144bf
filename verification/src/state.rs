//! Per-widget interaction state carried from one frame to the next.
use vstd::prelude::*;

verus! {

/// Per-widget interaction state, carried frame-to-frame.
///
/// Each frame a widget loads last frame's state, resolves its style against
/// it, renders, then stores the new state for the next frame.
#[derive(Clone, Copy, Debug, PartialEq, Eq, Structural)]
pub struct PseudoState {
    /// Pointer is over the widget.
    pub hovered: bool,
    /// Pointer button is pressed on the widget (e.g. mid-click).
    pub active: bool,
    /// Widget owns keyboard focus (e.g. text editing).
    pub focused: bool,
}

impl PseudoState {
    /// No interaction at all: the state of a widget never seen before.
    pub open spec fn idle() -> PseudoState {
        PseudoState { hovered: false, active: false, focused: false }
    }

    /// Build a state from what a widget's response reports: whether it is
    /// hovered, whether a pointer button is held down on it, and whether it
    /// has keyboard focus.
    pub fn from_flags(hovered: bool, pointer_down: bool, has_focus: bool) -> (s: PseudoState)
        ensures
            s == (PseudoState { hovered, active: pointer_down, focused: has_focus }),
    {
        PseudoState { hovered, active: pointer_down, focused: has_focus }
    }
}

impl Default for PseudoState {
    fn default() -> (s: PseudoState)
        ensures
            s == PseudoState::idle(),
    {
        PseudoState { hovered: false, active: false, focused: false }
    }
}

} // verus!
