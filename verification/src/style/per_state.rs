//! Resolving every interaction state at once, and what the result writes
//! into egui's visuals and paints on top of a widget.
use vstd::prelude::*;
use egui::{CursorIcon, Stroke};
use crate::color::Color;
use crate::state::PseudoState;
use crate::style::geometry::{CornerRadius, Margin};
use crate::style::resolve::{ResolvedStyle, WidgetDefaults};
use crate::style::shared_style::SharedStyle;
use crate::style::sides::{or_default, unwrap_or, ResolvedBorder};

verus! {

/// The parts of egui's `Visuals` that per-state resolution reads: the
/// inactive, hovered and active widget visuals, and the selection fill.
#[derive(Clone, Copy, Debug)]
pub struct VisualsDefaults {
    pub inactive: WidgetDefaults,
    pub hovered: WidgetDefaults,
    pub active: WidgetDefaults,
    pub selection_bg_fill: Color,
}

/// Resolved style for all interaction states at once, so each state's values
/// can be written into the matching egui widget-visuals slot.
#[derive(Clone)]
pub struct PerStateStyle<'a, G, I, B> {
    pub inactive: ResolvedStyle<'a, G, I, B>,
    pub hovered: ResolvedStyle<'a, G, I, B>,
    pub active: ResolvedStyle<'a, G, I, B>,
    /// Resolved with the focus fields over the inactive visuals.
    pub focused: ResolvedStyle<'a, G, I, B>,
    /// Selection fill (slider trail, text selection).
    pub accent: Color,
    /// Selection fill while hovering.
    pub hover_accent: Color,
    /// Shared across states.
    pub corner_radius: CornerRadius,
    pub padding: Margin,
    pub margin: Margin,
    pub cursor_icon: Option<CursorIcon>,
}

/// The paint of one egui widget-visuals slot.
#[derive(Clone, Copy, Debug)]
pub struct SlotPaint {
    pub bg_fill: Color,
    pub weak_bg_fill: Color,
    /// `None` suppresses egui's own stroke (`Stroke::NONE`).
    pub bg_stroke: Option<Stroke>,
    pub corner_radius: CornerRadius,
}

/// Everything [`SharedStyle::apply_to_visuals`] writes into egui's visuals.
/// Every written slot also has its expansion zeroed, and the foreground
/// colours replace the colour of each slot's foreground stroke.
#[derive(Clone, Copy, Debug)]
pub struct VisualsPatch {
    pub inactive: SlotPaint,
    pub hovered: SlotPaint,
    pub active: SlotPaint,
    /// The open state of combo-box menus mirrors the inactive state.
    pub open: SlotPaint,
    pub inactive_fg: Color,
    pub hovered_fg: Color,
    pub active_fg: Color,
    /// The text-edit background.
    pub extreme_bg_color: Color,
    /// The selection fill (slider trail, text selection): the hover accent
    /// while the widget is hovered, the accent otherwise.
    pub selection_bg_fill: Color,
    /// The text-edit focus ring.
    pub selection_stroke: Stroke,
}

/// Which border decoration paints over a widget, if any besides egui's own.
#[derive(Clone, Copy, Debug)]
pub enum BorderOverlay<B> {
    /// A gradient border mesh.
    Gradient(B),
    /// Straight per-side edges.
    Sides(ResolvedBorder),
    /// Nothing: egui's uniform stroke already painted the border.
    Uniform,
}

/// What to paint on top of a widget after egui rendered it.
#[derive(Clone, Copy, Debug)]
pub struct Overlays<I, B> {
    pub border: BorderOverlay<B>,
    /// Inner glow, painted last, on top.
    pub glow: Option<I>,
}

pub open spec fn hovered_state() -> PseudoState {
    PseudoState { hovered: true, active: false, focused: false }
}

pub open spec fn active_state() -> PseudoState {
    PseudoState { hovered: true, active: true, focused: false }
}

pub open spec fn focused_state() -> PseudoState {
    PseudoState { hovered: false, active: false, focused: true }
}

/// The egui paint of one slot for one resolved state: a gradient fill
/// suppresses the solid fill (painted underneath by hand), and a border
/// gradient or per-side overrides suppress egui's uniform stroke.
pub open spec fn slot_paint_spec<'a, G, I, B>(s: ResolvedStyle<'a, G, I, B>, cr: CornerRadius) -> SlotPaint {
    let fill = if s.bg_gradient is Some { Color::transparent_spec() } else { s.bg };
    SlotPaint {
        bg_fill: fill,
        weak_bg_fill: fill,
        bg_stroke: if s.border_gradient is Some || s.has_border_overrides { None } else { Some(s.border) },
        corner_radius: cr,
    }
}

/// Interaction precedence of a rendered widget: focus > pressed > hovered >
/// inactive, mirroring which slot egui itself paints with.
pub open spec fn for_response_spec<'a, G, I, B>(per: PerStateStyle<'a, G, I, B>, r: PseudoState) -> ResolvedStyle<'a, G, I, B> {
    if r.focused {
        per.focused
    } else if r.active {
        per.active
    } else if r.hovered {
        per.hovered
    } else {
        per.inactive
    }
}

fn slot_paint<G, I, B>(s: &ResolvedStyle<'_, G, I, B>, cr: CornerRadius) -> (p: SlotPaint)
    ensures
        p == slot_paint_spec(*s, cr),
{
    let fill = if s.bg_gradient.is_some() { Color::transparent() } else { s.bg };
    SlotPaint {
        bg_fill: fill,
        weak_bg_fill: fill,
        bg_stroke: if s.border_gradient.is_some() || s.has_border_overrides { None } else { Some(s.border) },
        corner_radius: cr,
    }
}

impl<'a, G, I, B> PerStateStyle<'a, G, I, B> {
    /// `per` resolves every state of `style` over the visuals `v`.
    pub open spec fn resolved_from(self, style: SharedStyle<G, I, B>, v: VisualsDefaults) -> bool {
        &&& style.resolves_to(PseudoState::idle(), v.inactive, self.inactive)
        &&& style.resolves_to(hovered_state(), v.hovered, self.hovered)
        &&& style.resolves_to(active_state(), v.active, self.active)
        &&& style.resolves_to(focused_state(), v.inactive, self.focused)
        &&& self.corner_radius == or_default(style.corner_radius, v.inactive.corner_radius)
        &&& self.accent == or_default(style.accent, v.selection_bg_fill)
        &&& self.hover_accent == or_default(style.hover_accent, self.accent)
        &&& self.padding == or_default(style.padding, Margin::zero_spec())
        &&& self.margin == or_default(style.margin, Margin::zero_spec())
        &&& self.cursor_icon == style.cursor_icon
    }
}

impl<G, I: Copy, B: Copy> SharedStyle<G, I, B> {
    /// Resolve every interaction state independently: inactive, hovered and
    /// pressed each over their own egui visuals, focused over the inactive
    /// visuals. The accent falls back to egui's selection fill, the hover
    /// accent to the accent.
    pub fn resolve_per_state<'a>(&'a self, visuals: &VisualsDefaults) -> (per: PerStateStyle<'a, G, I, B>)
        ensures
            per.resolved_from(*self, *visuals),
    {
        let inactive = self.resolve(
            PseudoState { hovered: false, active: false, focused: false },
            &visuals.inactive,
        );
        let hovered = self.resolve(
            PseudoState { hovered: true, active: false, focused: false },
            &visuals.hovered,
        );
        let active = self.resolve(
            PseudoState { hovered: true, active: true, focused: false },
            &visuals.active,
        );
        let focused = self.resolve(
            PseudoState { hovered: false, active: false, focused: true },
            &visuals.inactive,
        );
        let corner_radius = unwrap_or(self.corner_radius, visuals.inactive.corner_radius);
        let accent = unwrap_or(self.accent, visuals.selection_bg_fill);
        let hover_accent = unwrap_or(self.hover_accent, accent);
        PerStateStyle {
            inactive,
            hovered,
            active,
            focused,
            accent,
            hover_accent,
            corner_radius,
            padding: unwrap_or(self.padding, Margin::zero()),
            margin: unwrap_or(self.margin, Margin::zero()),
            cursor_icon: self.cursor_icon,
        }
    }
}

impl<G, I, B> SharedStyle<G, I, B> {
    /// What to write into egui's visuals so every egui widget inside the
    /// current scope picks up the right colours per interaction state:
    /// fills (with the weak fill kept in sync), strokes, the shared corner
    /// radius and text colours for the inactive, hovered and active slots;
    /// the open slot mirrors the inactive one; the text-edit background is
    /// the inactive fill; the selection stroke is the focused border.
    ///
    /// The selection fill is a single global field of egui's visuals with no
    /// per-state slot, so it is picked from the widget's pseudo-state as
    /// loaded from last frame: the hover accent while hovered, the accent
    /// otherwise.
    pub fn apply_to_visuals(per: &PerStateStyle<'_, G, I, B>, state: PseudoState) -> (p: VisualsPatch)
        ensures
            p.inactive == slot_paint_spec(per.inactive, per.corner_radius),
            p.hovered == slot_paint_spec(per.hovered, per.corner_radius),
            p.active == slot_paint_spec(per.active, per.corner_radius),
            p.open == slot_paint_spec(per.inactive, per.corner_radius),
            p.inactive_fg == per.inactive.text_color,
            p.hovered_fg == per.hovered.text_color,
            p.active_fg == per.active.text_color,
            p.extreme_bg_color == per.inactive.bg,
            state.hovered ==> p.selection_bg_fill == per.hover_accent,
            !state.hovered ==> p.selection_bg_fill == per.accent,
            p.selection_stroke == per.focused.border,
    {
        VisualsPatch {
            inactive: slot_paint(&per.inactive, per.corner_radius),
            hovered: slot_paint(&per.hovered, per.corner_radius),
            active: slot_paint(&per.active, per.corner_radius),
            open: slot_paint(&per.inactive, per.corner_radius),
            inactive_fg: per.inactive.text_color,
            hovered_fg: per.hovered.text_color,
            active_fg: per.active.text_color,
            extreme_bg_color: per.inactive.bg,
            selection_bg_fill: if state.hovered { per.hover_accent } else { per.accent },
            selection_stroke: per.focused.border,
        }
    }

    /// The resolved style matching a rendered widget's interaction state:
    /// focus > pressed > hovered > inactive.
    pub fn for_response<'a, 'b>(per: &'b PerStateStyle<'a, G, I, B>, response: PseudoState) -> (r: &'b ResolvedStyle<'a, G, I, B>)
        ensures
            *r == for_response_spec(*per, response),
    {
        if response.focused {
            &per.focused
        } else if response.active {
            &per.active
        } else if response.hovered {
            &per.hovered
        } else {
            &per.inactive
        }
    }

    /// The per-side border to paint by hand after a widget rendered, when the
    /// state it is in has per-side overrides; `None` when egui's uniform
    /// stroke already painted the border.
    pub fn widget_side_borders(per: &PerStateStyle<'_, G, I, B>, response: PseudoState) -> (b: Option<ResolvedBorder>)
        ensures
            for_response_spec(*per, response).has_border_overrides
                ==> b == Some(for_response_spec(*per, response).border_sides),
            !for_response_spec(*per, response).has_border_overrides ==> b is None,
    {
        let state = Self::for_response(per, response);
        if state.has_border_overrides {
            Some(state.border_sides)
        } else {
            None
        }
    }
}

impl<'a, G, I: Copy, B: Copy> ResolvedStyle<'a, G, I, B> {
    pub open spec fn overlays_spec(self) -> Overlays<I, B> {
        Overlays {
            border: match self.border_gradient {
                Some(g) => BorderOverlay::Gradient(g),
                None => if self.has_border_overrides {
                    BorderOverlay::Sides(self.border_sides)
                } else {
                    BorderOverlay::Uniform
                },
            },
            glow: self.inner_glow,
        }
    }

    /// What paints over the widget after egui rendered it: a border gradient
    /// wins over per-side edges, which win over the uniform stroke (egui's
    /// own, so nothing more); the inner glow paints last, on top.
    pub fn overlays(&self) -> (o: Overlays<I, B>)
        ensures
            o == self.overlays_spec(),
    {
        let border = match self.border_gradient {
            Some(g) => BorderOverlay::Gradient(g),
            None => if self.has_border_overrides {
                BorderOverlay::Sides(self.border_sides)
            } else {
                BorderOverlay::Uniform
            },
        };
        Overlays { border, glow: self.inner_glow }
    }
}

impl<'a, G, I, B> ResolvedStyle<'a, G, I, B> {
    /// The solid fill to repaint under a gradient fill: egui's own fill was
    /// suppressed for this state, so the underlay paints `bg` and then the
    /// gradient. `None` when the state has no gradient fill.
    pub fn gradient_underlay_fill(&self) -> (f: Option<Color>)
        ensures
            self.bg_gradient is Some ==> f == Some(self.bg),
            self.bg_gradient is None ==> f is None,
    {
        if self.bg_gradient.is_some() {
            Some(self.bg)
        } else {
            None
        }
    }
}

} // verus!
