//! Decisions of the styled button.
use vstd::prelude::*;
use crate::style::geometry::Margin;

verus! {

/// egui buttons only take symmetric padding, so an asymmetric margin
/// collapses to `(max(left, right), max(top, bottom))`.
pub fn button_padding(m: Margin) -> (p: (i8, i8))
    ensures
        p.0 == (if m.left >= m.right { m.left } else { m.right }),
        p.1 == (if m.top >= m.bottom { m.top } else { m.bottom }),
        p.0 >= m.left && p.0 >= m.right,
        p.1 >= m.top && p.1 >= m.bottom,
{
    let x = if m.left >= m.right { m.left } else { m.right };
    let y = if m.top >= m.bottom { m.top } else { m.bottom };
    (x, y)
}

} // verus!
