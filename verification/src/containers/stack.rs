//! Alignment of a stack layer within the frame of the layers before it.
use vstd::prelude::*;

verus! {

/// Alignment along one axis (egui's `Align`).
#[derive(Clone, Copy, Debug, PartialEq, Eq, Hash, Structural)]
pub enum Align {
    /// Left or top.
    Min,
    /// Horizontal or vertical centre.
    Center,
    /// Right or bottom.
    Max,
}

/// Two-axis alignment (egui's `Align2`): `x` horizontal, `y` vertical.
#[derive(Clone, Copy, Debug, PartialEq, Eq, Hash, Structural)]
pub struct Align2 {
    pub x: Align,
    pub y: Align,
}

/// Main direction of a layout.
#[derive(Clone, Copy, Debug, PartialEq, Eq, Structural)]
pub enum Direction {
    LeftToRight,
    RightToLeft,
    TopDown,
    BottomUp,
}

/// An egui layout that places a single child at some position within its
/// max rect.
#[derive(Clone, Copy, Debug, PartialEq, Eq, Structural)]
pub enum LayoutSpec {
    /// `Layout::centered_and_justified(dir)`.
    CenteredJustified(Direction),
    /// `Layout::from_main_dir_and_cross_align(dir, cross)`.
    MainCross(Direction, Align),
}

/// The layout that places a single child at `align` within its max rect.
///
/// egui cannot centre a single item on its main axis, so centre/centre uses a
/// centred-and-justified layout, one centred axis packs along the other axis
/// toward its edge with the cross axis centred, and a corner packs vertically
/// (bottom-up for a bottom corner) with the horizontal alignment as cross.
pub open spec fn layout_for_spec(align: Align2) -> LayoutSpec {
    if align.x == Align::Center && align.y == Align::Center {
        LayoutSpec::CenteredJustified(Direction::TopDown)
    } else if align.y == Align::Center {
        LayoutSpec::MainCross(
            if align.x == Align::Max { Direction::RightToLeft } else { Direction::LeftToRight },
            Align::Center,
        )
    } else if align.x == Align::Center {
        LayoutSpec::MainCross(
            if align.y == Align::Max { Direction::BottomUp } else { Direction::TopDown },
            Align::Center,
        )
    } else {
        LayoutSpec::MainCross(
            if align.y == Align::Max { Direction::BottomUp } else { Direction::TopDown },
            align.x,
        )
    }
}

/// Map an alignment to the layout that places a single child there.
pub fn layout_for(align: Align2) -> (l: LayoutSpec)
    ensures
        l == layout_for_spec(align),
{
    match (align.x, align.y) {
        (Align::Center, Align::Center) => LayoutSpec::CenteredJustified(Direction::TopDown),
        (ax, Align::Center) => {
            let dir = match ax {
                Align::Max => Direction::RightToLeft,
                _ => Direction::LeftToRight,
            };
            LayoutSpec::MainCross(dir, Align::Center)
        },
        (Align::Center, ay) => {
            let dir = match ay {
                Align::Max => Direction::BottomUp,
                _ => Direction::TopDown,
            };
            LayoutSpec::MainCross(dir, Align::Center)
        },
        (ax, ay) => {
            let dir = match ay {
                Align::Max => Direction::BottomUp,
                _ => Direction::TopDown,
            };
            LayoutSpec::MainCross(dir, ax)
        },
    }
}

} // verus!
