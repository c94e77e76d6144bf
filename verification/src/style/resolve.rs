//! Resolving the style bag against one interaction state.
use vstd::prelude::*;
use egui::{CursorIcon, Stroke};
use crate::color::Color;
use crate::state::PseudoState;
use crate::style::geometry::{CornerRadius, Margin};
use crate::style::shared_style::SharedStyle;
use crate::style::sides::{or_default, unwrap_or, ResolvedBorder, SideStrokes};

verus! {

/// The parts of egui's per-state widget visuals that resolution falls back
/// to: fill, stroke, text colour and corner radius.
#[derive(Clone, Copy, Debug)]
pub struct WidgetDefaults {
    pub bg_fill: Color,
    pub bg_stroke: Stroke,
    pub text_color: Color,
    pub corner_radius: CornerRadius,
}

/// Concrete style values for one interaction state after resolving the
/// pseudo-state and falling back to egui's defaults.
#[derive(Clone)]
pub struct ResolvedStyle<'a, G, I, B> {
    pub bg: Color,
    pub text_color: Color,
    /// The resolved uniform border.
    pub border: Stroke,
    /// The full per-side border: each side's override, or the uniform border.
    pub border_sides: ResolvedBorder,
    /// True when this state has any per-side override; switches painting
    /// from egui's uniform stroke to manual per-side edges.
    pub has_border_overrides: bool,
    pub corner_radius: CornerRadius,
    pub padding: Margin,
    pub margin: Margin,
    pub cursor_icon: Option<CursorIcon>,
    /// The gradient-fill slot of the style that this state selects (the
    /// style's own field, borrowed, not a copy).
    pub bg_gradient: &'a Option<G>,
    pub inner_glow: Option<I>,
    pub border_gradient: Option<B>,
}

/// Fill-family precedence (backgrounds, gradient fills, inner glows, border
/// gradients): active > hover > focus > base. A state's slot only wins when
/// the widget is in that state and the slot is set.
pub open spec fn by_fill_precedence<T>(
    state: PseudoState,
    base: Option<T>,
    hover: Option<T>,
    active: Option<T>,
    focus: Option<T>,
) -> Option<T> {
    if state.active && active is Some {
        active
    } else if state.hovered && hover is Some {
        hover
    } else if state.focused && focus is Some {
        focus
    } else {
        base
    }
}

/// Border precedence: focus > hover > base. There is no pressed border.
pub open spec fn by_border_precedence<T>(
    state: PseudoState,
    base: Option<T>,
    hover: Option<T>,
    focus: Option<T>,
) -> Option<T> {
    if state.focused && focus is Some {
        focus
    } else if state.hovered && hover is Some {
        hover
    } else {
        base
    }
}

/// Text colour precedence: focus > hover > base. There is no pressed text
/// colour.
pub open spec fn by_text_precedence<T>(
    state: PseudoState,
    base: Option<T>,
    hover: Option<T>,
    focus: Option<T>,
) -> Option<T> {
    if state.focused && focus is Some {
        focus
    } else if state.hovered && hover is Some {
        hover
    } else {
        base
    }
}

/// Per-side override group for a state: focus > hover > base, where a group
/// counts as set when any of its sides is.
pub open spec fn sides_for_state(
    state: PseudoState,
    base: SideStrokes,
    hover: SideStrokes,
    focus: SideStrokes,
) -> SideStrokes {
    if state.focused && focus.any_spec() {
        focus
    } else if state.hovered && hover.any_spec() {
        hover
    } else {
        base
    }
}

fn pick_fill<'a, T>(
    state: PseudoState,
    base: &'a Option<T>,
    hover: &'a Option<T>,
    active: &'a Option<T>,
    focus: &'a Option<T>,
) -> (r: &'a Option<T>)
    ensures
        *r == by_fill_precedence(state, *base, *hover, *active, *focus),
{
    if state.active && active.is_some() {
        active
    } else if state.hovered && hover.is_some() {
        hover
    } else if state.focused && focus.is_some() {
        focus
    } else {
        base
    }
}

fn pick_focus_hover<'a, T>(
    state: PseudoState,
    base: &'a Option<T>,
    hover: &'a Option<T>,
    focus: &'a Option<T>,
) -> (r: &'a Option<T>)
    ensures
        *r == by_border_precedence(state, *base, *hover, *focus),
{
    if state.focused && focus.is_some() {
        focus
    } else if state.hovered && hover.is_some() {
        hover
    } else {
        base
    }
}

impl<G, I, B> SharedStyle<G, I, B> {
    pub open spec fn resolved_bg(self, state: PseudoState, d: WidgetDefaults) -> Color {
        or_default(
            by_fill_precedence(state, self.bg, self.hover_bg, self.active_bg, self.focus_bg),
            d.bg_fill,
        )
    }

    pub open spec fn resolved_border(self, state: PseudoState, d: WidgetDefaults) -> Stroke {
        or_default(
            by_border_precedence(state, self.border, self.hover_border, self.focus_border),
            d.bg_stroke,
        )
    }

    pub open spec fn resolved_side_group(self, state: PseudoState) -> SideStrokes {
        sides_for_state(state, self.border_sides, self.hover_border_sides, self.focus_border_sides)
    }

    pub open spec fn resolved_text_color(self, state: PseudoState, d: WidgetDefaults) -> Color {
        or_default(by_text_precedence(state, self.text_color, self.hover_text_color, self.focus_text_color), d.text_color)
    }

    pub open spec fn resolved_bg_gradient(self, state: PseudoState) -> Option<G> {
        by_fill_precedence(
            state,
            self.bg_gradient,
            self.hover_bg_gradient,
            self.active_bg_gradient,
            self.focus_bg_gradient,
        )
    }

    pub open spec fn resolved_inner_glow(self, state: PseudoState) -> Option<I> {
        by_fill_precedence(
            state,
            self.inner_glow,
            self.hover_inner_glow,
            self.active_inner_glow,
            self.focus_inner_glow,
        )
    }

    pub open spec fn resolved_border_gradient(self, state: PseudoState) -> Option<B> {
        by_fill_precedence(
            state,
            self.border_gradient,
            self.hover_border_gradient,
            self.active_border_gradient,
            self.focus_border_gradient,
        )
    }
}

impl<G, I, B> SharedStyle<G, I, B> {
    /// `r` is what this style resolves to in `state` over the visuals `d`.
    pub open spec fn resolves_to<'a>(self, state: PseudoState, d: WidgetDefaults, r: ResolvedStyle<'a, G, I, B>) -> bool {
        &&& r.bg == self.resolved_bg(state, d)
        &&& r.text_color == self.resolved_text_color(state, d)
        &&& r.border == self.resolved_border(state, d)
        &&& r.has_border_overrides == self.resolved_side_group(state).any_spec()
        &&& r.border_sides == self.resolved_side_group(state).over_spec(r.border)
        &&& r.corner_radius == or_default(self.corner_radius, d.corner_radius)
        &&& r.padding == or_default(self.padding, Margin::zero_spec())
        &&& r.margin == or_default(self.margin, Margin::zero_spec())
        &&& r.cursor_icon == self.cursor_icon
        &&& *r.bg_gradient == self.resolved_bg_gradient(state)
        &&& r.inner_glow == self.resolved_inner_glow(state)
        &&& r.border_gradient == self.resolved_border_gradient(state)
    }
}

impl<G, I: Copy, B: Copy> SharedStyle<G, I, B> {
    /// Resolve against one interaction state and the egui visuals `default`
    /// for it. See the precedence rules on [`SharedStyle`].
    pub fn resolve<'a>(&'a self, state: PseudoState, default: &WidgetDefaults) -> (r: ResolvedStyle<'a, G, I, B>)
        ensures
            self.resolves_to(state, *default, r),
    {
        let bg = unwrap_or(
            *pick_fill(state, &self.bg, &self.hover_bg, &self.active_bg, &self.focus_bg),
            default.bg_fill,
        );
        let border = unwrap_or(
            *pick_focus_hover(state, &self.border, &self.hover_border, &self.focus_border),
            default.bg_stroke,
        );
        // Per-side overrides follow the same focus > hover > base precedence
        // as the uniform border; each unset side falls back to `border`.
        let sides = if state.focused && self.focus_border_sides.any() {
            self.focus_border_sides
        } else if state.hovered && self.hover_border_sides.any() {
            self.hover_border_sides
        } else {
            self.border_sides
        };
        let has_border_overrides = sides.any();
        let border_sides = sides.over(border);
        let text_color = unwrap_or(
            *pick_focus_hover(state, &self.text_color, &self.hover_text_color, &self.focus_text_color),
            default.text_color,
        );
        let bg_gradient = pick_fill(
            state,
            &self.bg_gradient,
            &self.hover_bg_gradient,
            &self.active_bg_gradient,
            &self.focus_bg_gradient,
        );
        let inner_glow = *pick_fill(
            state,
            &self.inner_glow,
            &self.hover_inner_glow,
            &self.active_inner_glow,
            &self.focus_inner_glow,
        );
        let border_gradient = *pick_fill(
            state,
            &self.border_gradient,
            &self.hover_border_gradient,
            &self.active_border_gradient,
            &self.focus_border_gradient,
        );
        ResolvedStyle {
            bg,
            text_color,
            border,
            border_sides,
            has_border_overrides,
            corner_radius: unwrap_or(self.corner_radius, default.corner_radius),
            padding: unwrap_or(self.padding, Margin::zero()),
            margin: unwrap_or(self.margin, Margin::zero()),
            cursor_icon: self.cursor_icon,
            bg_gradient,
            inner_glow,
            border_gradient,
        }
    }
}

} // verus!
