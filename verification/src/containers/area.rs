//! Where a top-level styled area is placed.
use vstd::prelude::*;
use egui::{Pos2, Vec2};
use crate::containers::stack::Align2;

verus! {

/// How a top-level area is positioned on screen.
#[derive(Clone, Copy, Debug)]
pub enum AreaPlacement {
    /// Centre on this point, using last frame's measured size.
    CenteredAt(Pos2),
    /// Cover the whole content rect.
    FillScreen,
    /// Top-left corner at this point.
    Fixed(Pos2),
    /// Anchored to a screen alignment with an offset.
    Anchored(Align2, Vec2),
    /// egui's own placement.
    Auto,
}

/// Placement priority: centred > fill screen > fixed position > anchor.
pub open spec fn area_placement_spec(
    centered: Option<Pos2>,
    fill_screen: bool,
    fixed: Option<Pos2>,
    anchor: Option<(Align2, Vec2)>,
) -> AreaPlacement {
    match centered {
        Some(c) => AreaPlacement::CenteredAt(c),
        None => if fill_screen {
            AreaPlacement::FillScreen
        } else {
            match fixed {
                Some(p) => AreaPlacement::Fixed(p),
                None => match anchor {
                    Some((a, o)) => AreaPlacement::Anchored(a, o),
                    None => AreaPlacement::Auto,
                },
            }
        },
    }
}

/// Decide how an area is placed from its placement builders.
pub fn area_placement(
    centered: Option<Pos2>,
    fill_screen: bool,
    fixed: Option<Pos2>,
    anchor: Option<(Align2, Vec2)>,
) -> (p: AreaPlacement)
    ensures
        p == area_placement_spec(centered, fill_screen, fixed, anchor),
{
    match centered {
        Some(c) => AreaPlacement::CenteredAt(c),
        None => if fill_screen {
            AreaPlacement::FillScreen
        } else {
            match fixed {
                Some(p) => AreaPlacement::Fixed(p),
                None => match anchor {
                    Some((a, o)) => AreaPlacement::Anchored(a, o),
                    None => AreaPlacement::Auto,
                },
            }
        },
    }
}

} // verus!
