//! The style bag carried by every styled widget.
use vstd::prelude::*;
use egui::{CursorIcon, Image, Stroke};
use crate::color::Color;
use crate::style::decor::{BackgroundImageFit, Shadow};
use crate::style::geometry::{CornerRadius, Margin};
use crate::style::sides::SideStrokes;

verus! {

/// The style bag carried by every styled widget.
///
/// Every field is optional so an unset field falls through to egui's active
/// visuals at resolve time: a default the user did not set is never
/// overwritten. The decoration payloads that carry floating-point geometry
/// (gradient fills `G`, inner glows `I`, border gradients `B`) are type
/// parameters: resolution picks among them by interaction state and never
/// looks inside. Sizing in points and font sizes are kept by the rendering
/// layer beside this bag.
///
/// # Precedence rules
///
/// - `bg`, gradient fills, inner glows and border gradients:
///   `active` > `hover` > `focus` > base.
/// - `border`, and the per-side border overrides (which fall back to the
///   resolved uniform border for each unset side): `focus` > `hover` > base.
/// - `text_color`: `focus` > `hover` > base. There is no pressed text
///   colour: text changes on hover and focus only.
/// - A state's own field wins over the base field, which wins over the
///   visuals default.
/// - Of the border decorations of one state, only one paints:
///   border gradient > per-side overrides > uniform border.
#[derive(Clone)]
pub struct SharedStyle<G, I, B> {
    // Background
    pub bg: Option<Color>,
    pub hover_bg: Option<Color>,
    pub active_bg: Option<Color>,
    pub focus_bg: Option<Color>,
    // Accent: egui's selection fill (slider trail, text selection, focus ring).
    pub accent: Option<Color>,
    pub hover_accent: Option<Color>,
    // Text
    pub text_color: Option<Color>,
    pub hover_text_color: Option<Color>,
    pub focus_text_color: Option<Color>,
    // Border
    pub border: Option<Stroke>,
    pub hover_border: Option<Stroke>,
    pub focus_border: Option<Stroke>,
    // Per-side border overrides for the base, hover and focus states.
    pub border_sides: SideStrokes,
    pub hover_border_sides: SideStrokes,
    pub focus_border_sides: SideStrokes,
    // Geometry
    pub corner_radius: Option<CornerRadius>,
    pub padding: Option<Margin>,
    pub margin: Option<Margin>,
    // Stretch to the parent's available width / height.
    pub full_width: bool,
    pub full_height: bool,
    // Cursor shown while hovering.
    pub cursor_icon: Option<CursorIcon>,
    // `Some(false)` keeps the layout space but paints nothing; `None` and
    // `Some(true)` are both visible.
    pub visible: Option<bool>,
    // Gradient fill, per state (paints over the solid `bg`).
    pub bg_gradient: Option<G>,
    pub hover_bg_gradient: Option<G>,
    pub active_bg_gradient: Option<G>,
    pub focus_bg_gradient: Option<G>,
    // Inner glow, per state.
    pub inner_glow: Option<I>,
    pub hover_inner_glow: Option<I>,
    pub active_inner_glow: Option<I>,
    pub focus_inner_glow: Option<I>,
    // Gradient border, per state.
    pub border_gradient: Option<B>,
    pub hover_border_gradient: Option<B>,
    pub active_border_gradient: Option<B>,
    pub focus_border_gradient: Option<B>,
    // Offset rects painted behind the widget, in call order.
    pub shadows: Vec<Shadow>,
    // Background texture drawn over `bg`, clipped to the same rounded rect.
    pub background_image: Option<Image<'static>>,
    pub background_image_fit: BackgroundImageFit,
    pub background_image_tint: Option<Color>,
    // When true, the body content fades in together with the background image.
    pub background_image_fade_content: bool,
}

impl<G, I, B> SharedStyle<G, I, B> {
    /// The empty style: nothing set.
    pub open spec fn is_empty_spec(self) -> bool {
        &&& self.bg is None
        &&& self.hover_bg is None
        &&& self.active_bg is None
        &&& self.focus_bg is None
        &&& self.accent is None
        &&& self.hover_accent is None
        &&& self.text_color is None
        &&& self.hover_text_color is None
        &&& self.focus_text_color is None
        &&& self.border is None
        &&& self.hover_border is None
        &&& self.focus_border is None
        &&& self.border_sides == SideStrokes::none_spec()
        &&& self.hover_border_sides == SideStrokes::none_spec()
        &&& self.focus_border_sides == SideStrokes::none_spec()
        &&& self.corner_radius is None
        &&& self.padding is None
        &&& self.margin is None
        &&& !self.full_width
        &&& !self.full_height
        &&& self.cursor_icon is None
        &&& self.visible is None
        &&& self.bg_gradient is None
        &&& self.hover_bg_gradient is None
        &&& self.active_bg_gradient is None
        &&& self.focus_bg_gradient is None
        &&& self.inner_glow is None
        &&& self.hover_inner_glow is None
        &&& self.active_inner_glow is None
        &&& self.focus_inner_glow is None
        &&& self.border_gradient is None
        &&& self.hover_border_gradient is None
        &&& self.active_border_gradient is None
        &&& self.focus_border_gradient is None
        &&& self.shadows@.len() == 0
        &&& self.background_image is None
        &&& self.background_image_fit == BackgroundImageFit::Stretch
        &&& self.background_image_tint is None
        &&& !self.background_image_fade_content
    }

    /// Whether any field that a frame could render is set: fills, borders
    /// (uniform or per side), padding, corner radius, margin, a background
    /// image, gradients, glows and border gradients. Text colour, accent,
    /// sizing, cursor and visibility are not frame concerns.
    pub open spec fn has_frame_styles_spec(self) -> bool {
        ||| self.bg is Some
        ||| self.hover_bg is Some
        ||| self.active_bg is Some
        ||| self.focus_bg is Some
        ||| self.border is Some
        ||| self.hover_border is Some
        ||| self.focus_border is Some
        ||| self.border_sides.any_spec()
        ||| self.hover_border_sides.any_spec()
        ||| self.focus_border_sides.any_spec()
        ||| self.padding is Some
        ||| self.corner_radius is Some
        ||| self.margin is Some
        ||| self.background_image is Some
        ||| self.bg_gradient is Some
        ||| self.hover_bg_gradient is Some
        ||| self.active_bg_gradient is Some
        ||| self.focus_bg_gradient is Some
        ||| self.inner_glow is Some
        ||| self.hover_inner_glow is Some
        ||| self.active_inner_glow is Some
        ||| self.focus_inner_glow is Some
        ||| self.border_gradient is Some
        ||| self.hover_border_gradient is Some
        ||| self.active_border_gradient is Some
        ||| self.focus_border_gradient is Some
    }

    /// A style with nothing set.
    pub fn new() -> (s: Self)
        ensures
            s.is_empty_spec(),
    {
        SharedStyle {
            bg: None,
            hover_bg: None,
            active_bg: None,
            focus_bg: None,
            accent: None,
            hover_accent: None,
            text_color: None,
            hover_text_color: None,
            focus_text_color: None,
            border: None,
            hover_border: None,
            focus_border: None,
            border_sides: SideStrokes::default(),
            hover_border_sides: SideStrokes::default(),
            focus_border_sides: SideStrokes::default(),
            corner_radius: None,
            padding: None,
            margin: None,
            full_width: false,
            full_height: false,
            cursor_icon: None,
            visible: None,
            bg_gradient: None,
            hover_bg_gradient: None,
            active_bg_gradient: None,
            focus_bg_gradient: None,
            inner_glow: None,
            hover_inner_glow: None,
            active_inner_glow: None,
            focus_inner_glow: None,
            border_gradient: None,
            hover_border_gradient: None,
            active_border_gradient: None,
            focus_border_gradient: None,
            shadows: Vec::new(),
            background_image: None,
            background_image_fit: BackgroundImageFit::default(),
            background_image_tint: None,
            background_image_fade_content: false,
        }
    }

    /// True if any field that an egui frame could render is set.
    ///
    /// Containers use this to decide whether to wrap themselves in a styled
    /// frame or render directly. `margin` counts because it is applied as the
    /// wrapper frame's outer margin.
    pub fn has_frame_styles(&self) -> (b: bool)
        ensures
            b == self.has_frame_styles_spec(),
    {
        self.bg.is_some() || self.hover_bg.is_some() || self.active_bg.is_some()
            || self.focus_bg.is_some() || self.border.is_some() || self.hover_border.is_some()
            || self.focus_border.is_some() || self.border_sides.any()
            || self.hover_border_sides.any() || self.focus_border_sides.any()
            || self.padding.is_some() || self.corner_radius.is_some() || self.margin.is_some()
            || self.background_image.is_some() || self.bg_gradient.is_some()
            || self.hover_bg_gradient.is_some() || self.active_bg_gradient.is_some()
            || self.focus_bg_gradient.is_some() || self.inner_glow.is_some()
            || self.hover_inner_glow.is_some() || self.active_inner_glow.is_some()
            || self.focus_inner_glow.is_some() || self.border_gradient.is_some()
            || self.hover_border_gradient.is_some() || self.active_border_gradient.is_some()
            || self.focus_border_gradient.is_some()
    }

    /// Whether the widget paints at all: only `visible(false)` hides it.
    pub fn is_visible(&self) -> (b: bool)
        ensures
            b == (self.visible != Some(false)),
    {
        match self.visible {
            Some(v) => v,
            None => true,
        }
    }
}

impl<G, I, B> crate::apply::Apply for SharedStyle<G, I, B> {}

impl<G, I, B> Default for SharedStyle<G, I, B> {
    fn default() -> (s: Self)
        ensures
            s.is_empty_spec(),
    {
        SharedStyle::new()
    }
}

} // verus!
