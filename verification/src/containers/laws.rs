//! Properties of the container placement and layering decisions.
use vstd::prelude::*;
use egui::{Pos2, Stroke, Vec2};
use crate::color::Color;
use crate::containers::area::{area_placement_spec, AreaPlacement};
use crate::containers::frame::{background_layers_spec, BackgroundLayer};
use crate::containers::stack::{layout_for_spec, Align, Align2, Direction, LayoutSpec};
use crate::style::sides::ResolvedBorder;

verus! {

/// Where egui puts a single child inside its max rect under a layout:
/// a centred-and-justified layout fills (centres) both axes; otherwise the
/// child packs to the start of the main direction (left for left-to-right,
/// right for right-to-left, top for top-down, bottom for bottom-up) and sits
/// at the cross alignment on the other axis.
pub open spec fn single_child_position(l: LayoutSpec) -> Align2 {
    match l {
        LayoutSpec::CenteredJustified(_) => Align2 { x: Align::Center, y: Align::Center },
        LayoutSpec::MainCross(Direction::LeftToRight, c) => Align2 { x: Align::Min, y: c },
        LayoutSpec::MainCross(Direction::RightToLeft, c) => Align2 { x: Align::Max, y: c },
        LayoutSpec::MainCross(Direction::TopDown, c) => Align2 { x: c, y: Align::Min },
        LayoutSpec::MainCross(Direction::BottomUp, c) => Align2 { x: c, y: Align::Max },
    }
}

/// A stack layer lands where it was aligned: the layout chosen for any
/// alignment places a single child at exactly that alignment, on both axes.
/// In particular a corner keeps its horizontal side as the cross alignment
/// and packs bottom-up exactly for a bottom corner.
pub proof fn law_layout_places_at_alignment(align: Align2)
    ensures
        single_child_position(layout_for_spec(align)) == align,
        align.x != Align::Center && align.y != Align::Center ==> (layout_for_spec(align) matches LayoutSpec::MainCross(
            dir,
            cross,
        ) && cross == align.x && (dir == Direction::BottomUp <==> align.y == Align::Max)),
{
}

/// A centred position always wins: whatever the other placement options
/// are, an area given a centre is centred there. Without one, filling the
/// screen beats a fixed position, which beats an anchor; with none of them
/// egui places the area.
pub proof fn law_area_placement_priority(
    centered: Option<Pos2>,
    fill_screen: bool,
    fixed: Option<Pos2>,
    anchor: Option<(Align2, Vec2)>,
)
    ensures
        centered matches Some(c) ==> area_placement_spec(centered, fill_screen, fixed, anchor)
            == AreaPlacement::CenteredAt(c),
        centered is None && fill_screen ==> area_placement_spec(centered, fill_screen, fixed, anchor)
            == AreaPlacement::FillScreen,
        centered is None && !fill_screen ==> (fixed matches Some(p) ==> area_placement_spec(
            centered,
            fill_screen,
            fixed,
            anchor,
        ) == AreaPlacement::Fixed(p)),
        centered is None && !fill_screen && fixed is None ==> (anchor matches Some((a, o))
            ==> area_placement_spec(centered, fill_screen, fixed, anchor) == AreaPlacement::Anchored(a, o)),
        centered is None && !fill_screen && fixed is None && anchor is None ==> area_placement_spec(
            centered,
            fill_screen,
            fixed,
            anchor,
        ) == AreaPlacement::Auto,
{
}

/// Background-image layers stack back to front: the solid fill is the
/// bottom layer, every fill comes before the texture, and every border
/// (per-side edges or the uniform outline) comes after the texture, so the
/// border always paints on top of the image. The border, when there is one,
/// is the top layer, per-side edges winning over the outline; the texture is
/// there exactly when it is loaded.
pub proof fn law_background_layers_order(
    bg: Option<Color>,
    gradient: bool,
    border: Option<Stroke>,
    border_sides: Option<ResolvedBorder>,
    texture_ready: bool,
)
    ensures
        ({
            let l = background_layers_spec(bg, gradient, border, border_sides, texture_ready);
            &&& forall|i: int, j: int|
                0 <= i < l.len() && 0 <= j < l.len() && (l[i] is Texture || l[i] is Fill || l[i] is Gradient)
                    && (l[j] is Edges || l[j] is Outline) ==> i < j
            &&& forall|i: int, j: int|
                0 <= i < l.len() && 0 <= j < l.len() && (l[i] is Fill || l[i] is Gradient) && l[j] is Texture
                    ==> i < j
            &&& forall|i: int| 0 <= i < l.len() && l[i] is Fill ==> i == 0
            &&& bg matches Some(c) ==> l.len() > 0 && l[0] == BackgroundLayer::Fill(c)
            &&& border_sides matches Some(s) ==> l.len() > 0 && l.last() == BackgroundLayer::Edges(s)
            &&& border_sides is None ==> (border matches Some(b) ==> l.len() > 0 && l.last()
                == BackgroundLayer::Outline(b))
            &&& border_sides is None && border is None ==> forall|i: int|
                0 <= i < l.len() ==> !(l[i] is Edges || l[i] is Outline)
            &&& texture_ready <==> exists|i: int| 0 <= i < l.len() && l[i] is Texture
        }),
{
    let l = background_layers_spec(bg, gradient, border, border_sides, texture_ready);
    let fill = match bg {
        Some(c) => seq![BackgroundLayer::Fill(c)],
        None => Seq::empty(),
    };
    let grad = if gradient { seq![BackgroundLayer::Gradient] } else { Seq::empty() };
    let texture = if texture_ready { seq![BackgroundLayer::Texture] } else { Seq::empty() };
    let edge = match border_sides {
        Some(s) => seq![BackgroundLayer::Edges(s)],
        None => match border {
            Some(b) => seq![BackgroundLayer::Outline(b)],
            None => Seq::empty(),
        },
    };
    let a = fill.len() as int;
    let b = a + grad.len();
    let c = b + texture.len();
    assert(l == fill + grad + texture + edge);
    assert forall|i: int| 0 <= i < l.len() implies {
        &&& (l[i] is Fill <==> i < a)
        &&& (l[i] is Gradient <==> a <= i < b)
        &&& (l[i] is Texture <==> b <= i < c)
        &&& (l[i] is Edges || l[i] is Outline <==> c <= i)
    } by {
        if i < a {
            assert(l[i] == fill[i]);
        } else if i < b {
            assert(l[i] == grad[i - a]);
        } else if i < c {
            assert(l[i] == texture[i - b]);
        } else {
            assert(l[i] == edge[i - c]);
        }
    }
    if texture_ready {
        assert(l[b] is Texture);
    }
}

} // verus!
