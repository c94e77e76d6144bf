//! Decisions shared by the interactive widgets.
use vstd::prelude::*;
use egui::CursorIcon;
use crate::style::geometry::Margin;

verus! {

/// The cursor to set after a widget rendered: its cursor override, but only
/// while the pointer hovers it.
pub fn cursor_override(icon: Option<CursorIcon>, hovered: bool) -> (c: Option<CursorIcon>)
    ensures
        hovered ==> c == icon,
        !hovered ==> c is None,
{
    if hovered {
        icon
    } else {
        None
    }
}

/// A margin to apply to the widget's wrapper frame: only a non-zero one is
/// applied, a zero margin leaves the wrapper as egui builds it.
pub fn nonzero_margin(m: Margin) -> (r: Option<Margin>)
    ensures
        m != Margin::zero_spec() ==> r == Some(m),
        m == Margin::zero_spec() ==> r is None,
{
    if m.is_nonzero() {
        Some(m)
    } else {
        None
    }
}

} // verus!
