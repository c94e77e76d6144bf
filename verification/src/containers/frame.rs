//! The box decisions of the styled frame, and the layers of a background image.
use vstd::prelude::*;
use egui::Stroke;
use crate::color::Color;
use crate::state::PseudoState;
use crate::style::geometry::{CornerRadius, Margin};
use crate::style::resolve::WidgetDefaults;
use crate::style::per_state::{BorderOverlay, Overlays};
use crate::style::shared_style::SharedStyle;
use crate::style::sides::{or_default, unwrap_or, ResolvedBorder};

verus! {

/// How a styled frame delegates its box to egui and what it paints itself.
#[derive(Clone)]
pub struct FramePlan<'a, G, I, B> {
    /// Fill handed to egui's frame.
    pub fill: Option<Color>,
    /// Uniform stroke handed to egui's frame.
    pub stroke: Option<Stroke>,
    pub corner_radius: Option<CornerRadius>,
    pub inner_margin: Option<Margin>,
    pub outer_margin: Option<Margin>,
    /// Whether the fill, gradient, texture and border are painted by hand
    /// into a background-image slot instead of by egui's frame.
    pub paints_background_image: bool,
    /// The gradient fill of the base state (the style's own field).
    pub bg_gradient: &'a Option<G>,
    /// Without a background image, the solid fill painted by hand under the
    /// gradient fill (egui's own fill is then suppressed).
    pub underlay_fill: Option<Color>,
    /// The uniform border of the box, whoever paints it: `None` when a border
    /// gradient or per-side edges win.
    pub uniform_border: Option<Stroke>,
    /// The border decoration and inner glow painted over the frame.
    pub overlays: Overlays<I, B>,
    /// Corner radius of the shadows.
    pub shadow_corner_radius: CornerRadius,
    /// Tint of the background image.
    pub image_tint: Color,
}

/// One layer of a background-image box, back to front.
#[derive(Clone, Copy, Debug)]
pub enum BackgroundLayer {
    /// Solid fill behind everything.
    Fill(Color),
    /// The gradient fill, over the solid fill.
    Gradient,
    /// The texture rectangle, rounded and tinted.
    Texture,
    /// Per-side straight edges.
    Edges(ResolvedBorder),
    /// The uniform rounded border.
    Outline(Stroke),
}

/// The layers of a background-image box: the fill whenever one is set (it
/// does not wait for the texture), then the gradient fill when there is one,
/// the texture once it is loaded, then the border on top, per-side edges
/// winning over the uniform border.
pub open spec fn background_layers_spec(
    bg: Option<Color>,
    gradient: bool,
    border: Option<Stroke>,
    border_sides: Option<ResolvedBorder>,
    texture_ready: bool,
) -> Seq<BackgroundLayer> {
    let fill = match bg {
        Some(c) => seq![BackgroundLayer::Fill(c)],
        None => Seq::empty(),
    };
    let grad = if gradient { seq![BackgroundLayer::Gradient] } else { Seq::empty() };
    let texture = if texture_ready { seq![BackgroundLayer::Texture] } else { Seq::empty() };
    let edge = match border_sides {
        Some(s) => seq![BackgroundLayer::Edges(s)],
        None => match border {
            Some(b) => seq![BackgroundLayer::Outline(b)],
            None => Seq::empty(),
        },
    };
    fill + grad + texture + edge
}

/// The layers to paint for a background-image box; `None` when there is
/// nothing to draw (no fill, no gradient, no border, and the texture is still
/// loading).
pub fn background_image_layers(
    bg: Option<Color>,
    gradient: bool,
    border: Option<Stroke>,
    border_sides: Option<ResolvedBorder>,
    texture_ready: bool,
) -> (r: Option<Vec<BackgroundLayer>>)
    ensures
        r is None <==> background_layers_spec(bg, gradient, border, border_sides, texture_ready).len() == 0,
        r is Some ==> r->0@ == background_layers_spec(bg, gradient, border, border_sides, texture_ready),
{
    let mut parts: Vec<BackgroundLayer> = Vec::new();
    if let Some(fill) = bg {
        parts.push(BackgroundLayer::Fill(fill));
    }
    if gradient {
        parts.push(BackgroundLayer::Gradient);
    }
    if texture_ready {
        parts.push(BackgroundLayer::Texture);
    }
    if let Some(sides) = border_sides {
        parts.push(BackgroundLayer::Edges(sides));
    } else if let Some(stroke) = border {
        parts.push(BackgroundLayer::Outline(stroke));
    }
    proof {
        let spec = background_layers_spec(bg, gradient, border, border_sides, texture_ready);
        assert(parts@ =~= spec);
    }
    if parts.len() == 0 {
        None
    } else {
        Some(parts)
    }
}

impl<G, I, B> SharedStyle<G, I, B> {
    /// The per-side edges a frame paints by hand: a frame is not
    /// interactive, so its border resolves against the base state.
    pub open spec fn frame_side_borders_spec(self, inactive: WidgetDefaults) -> Option<ResolvedBorder> {
        let group = self.resolved_side_group(PseudoState::idle());
        if group.any_spec() {
            Some(group.over_spec(self.resolved_border(PseudoState::idle(), inactive)))
        } else {
            None
        }
    }

    /// What paints over a frame: the base state's border gradient, else its
    /// per-side edges, else nothing besides the uniform border; and the base
    /// state's inner glow on top.
    pub open spec fn frame_overlays_spec(self, inactive: WidgetDefaults) -> Overlays<I, B> {
        Overlays {
            border: match self.border_gradient {
                Some(g) => BorderOverlay::Gradient(g),
                None => match self.frame_side_borders_spec(inactive) {
                    Some(s) => BorderOverlay::Sides(s),
                    None => BorderOverlay::Uniform,
                },
            },
            glow: self.inner_glow,
        }
    }
}

impl<G, I: Copy, B: Copy> SharedStyle<G, I, B> {
    /// Plan a styled frame over the inactive egui visuals. A frame is not
    /// interactive, so it decorates with its base state.
    ///
    /// Without a background image, corner radius, padding and margin go to
    /// egui's frame, and so do the fill (unless a gradient fill is set: then
    /// fill and gradient are painted by hand underneath) and the uniform
    /// border (unless a border gradient or per-side overrides win: those are
    /// painted by hand on top). With a background image only the geometry
    /// goes to egui's frame; fill, gradient, texture and border are painted
    /// by hand so the texture sits between the fills and the border. Border
    /// gradient and inner glow paint over the frame in either case.
    pub fn frame_plan<'a>(&'a self, inactive: &WidgetDefaults) -> (p: FramePlan<'a, G, I, B>)
        ensures
            p.overlays == self.frame_overlays_spec(*inactive),
            *p.bg_gradient == self.bg_gradient,
            p.paints_background_image == (self.background_image is Some),
            p.uniform_border == (if p.overlays.border is Uniform { self.border } else { None }),
            self.background_image is Some ==> p.fill is None && p.stroke is None && p.underlay_fill is None,
            self.background_image is None ==> p.stroke == p.uniform_border,
            self.background_image is None && self.bg_gradient is None ==> p.fill == self.bg && p.underlay_fill is None,
            self.background_image is None && self.bg_gradient is Some ==> p.fill is None && p.underlay_fill == self.bg,
            p.corner_radius == self.corner_radius,
            p.inner_margin == self.padding,
            p.outer_margin == self.margin,
            p.shadow_corner_radius == or_default(self.corner_radius, CornerRadius::same_spec(0)),
            p.image_tint == or_default(self.background_image_tint, Color::white_spec()),
    {
        let side_borders = if self.border_sides.any() {
            let uniform = unwrap_or(self.border, inactive.bg_stroke);
            Some(self.border_sides.over(uniform))
        } else {
            None
        };
        let border = match self.border_gradient {
            Some(g) => BorderOverlay::Gradient(g),
            None => match side_borders {
                Some(s) => BorderOverlay::Sides(s),
                None => BorderOverlay::Uniform,
            },
        };
        let uniform_border = match border {
            BorderOverlay::Uniform => self.border,
            _ => None,
        };
        let has_bg_image = self.background_image.is_some();
        let has_gradient = self.bg_gradient.is_some();
        let fill = if has_bg_image || has_gradient { None } else { self.bg };
        let underlay_fill = if !has_bg_image && has_gradient { self.bg } else { None };
        let stroke = if has_bg_image { None } else { uniform_border };
        FramePlan {
            fill,
            stroke,
            corner_radius: self.corner_radius,
            inner_margin: self.padding,
            outer_margin: self.margin,
            paints_background_image: has_bg_image,
            bg_gradient: &self.bg_gradient,
            underlay_fill,
            uniform_border,
            overlays: Overlays { border, glow: self.inner_glow },
            shadow_corner_radius: unwrap_or(self.corner_radius, CornerRadius::default()),
            image_tint: unwrap_or(self.background_image_tint, Color::white()),
        }
    }
}

} // verus!
