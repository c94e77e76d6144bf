//! Decisions of the styled text edit.
use vstd::prelude::*;
use crate::state::PseudoState;
use crate::style::per_state::PerStateStyle;
use crate::style::resolve::ResolvedStyle;

verus! {

/// The resolved state a text edit's custom frame is painted with, from last
/// frame's state: focused > hovered > inactive (typing keeps the focus look
/// even under the pointer).
pub fn text_edit_frame_state<'a, 'b, G, I, B>(per: &'b PerStateStyle<'a, G, I, B>, state: PseudoState) -> (r: &'b ResolvedStyle<'a, G, I, B>)
    ensures
        state.focused ==> *r == per.focused,
        !state.focused && state.hovered ==> *r == per.hovered,
        !state.focused && !state.hovered ==> *r == per.inactive,
{
    if state.focused {
        &per.focused
    } else if state.hovered {
        &per.hovered
    } else {
        &per.inactive
    }
}

} // verus!
