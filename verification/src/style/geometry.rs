//! Integer box geometry: corner radii and margins.
use vstd::prelude::*;

verus! {

/// Per-corner rounding radius in points (egui's `CornerRadius` layout).
#[derive(Clone, Copy, Debug, PartialEq, Eq, Hash, Structural)]
pub struct CornerRadius {
    /// North-west (left top).
    pub nw: u8,
    /// North-east (right top).
    pub ne: u8,
    /// South-west (left bottom).
    pub sw: u8,
    /// South-east (right bottom).
    pub se: u8,
}

impl CornerRadius {
    pub open spec fn same_spec(r: u8) -> CornerRadius {
        CornerRadius { nw: r, ne: r, sw: r, se: r }
    }

    /// The same radius on every corner.
    pub fn same(r: u8) -> (c: CornerRadius)
        ensures
            c == CornerRadius::same_spec(r),
    {
        CornerRadius { nw: r, ne: r, sw: r, se: r }
    }
}

impl Default for CornerRadius {
    /// Square corners.
    fn default() -> (c: CornerRadius)
        ensures
            c == CornerRadius::same_spec(0),
    {
        CornerRadius::same(0)
    }
}

/// Space around a box on each side, in points (egui's `Margin` layout).
#[derive(Clone, Copy, Debug, PartialEq, Eq, Hash, Structural)]
pub struct Margin {
    pub left: i8,
    pub right: i8,
    pub top: i8,
    pub bottom: i8,
}

impl Margin {
    pub open spec fn zero_spec() -> Margin {
        Margin { left: 0, right: 0, top: 0, bottom: 0 }
    }

    /// No margin on any side.
    pub fn zero() -> (m: Margin)
        ensures
            m == Margin::zero_spec(),
    {
        Margin { left: 0, right: 0, top: 0, bottom: 0 }
    }

    /// The same margin on every side.
    pub fn same(v: i8) -> (m: Margin)
        ensures
            m == (Margin { left: v, right: v, top: v, bottom: v }),
    {
        Margin { left: v, right: v, top: v, bottom: v }
    }

    /// Whether any side is non-zero.
    pub fn is_nonzero(&self) -> (b: bool)
        ensures
            b == (*self != Margin::zero_spec()),
    {
        self.left != 0 || self.right != 0 || self.top != 0 || self.bottom != 0
    }
}

impl Default for Margin {
    fn default() -> (m: Margin)
        ensures
            m == Margin::zero_spec(),
    {
        Margin::zero()
    }
}

} // verus!
