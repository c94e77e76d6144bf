//! Builders on the style bag: each one sets its field and leaves every other
//! field as it was.
use vstd::prelude::*;
use egui::{CursorIcon, Image, Stroke};
use crate::color::Color;
use crate::style::decor::{BackgroundImageFit, Shadow};
use crate::style::geometry::{CornerRadius, Margin};
use crate::style::shared_style::SharedStyle;
use crate::style::sides::{or_default, unwrap_or, SideStrokes};

verus! {

impl<G, I, B> SharedStyle<G, I, B> {
    /// Set the base background fill colour.
    pub fn bg(self, color: Color) -> (r: Self)
        ensures
            r == (SharedStyle { bg: Some(color), ..self }),
    {
        let mut s = self;
        s.bg = Some(color);
        s
    }

    /// Background fill while the pointer is hovering. Falls back to `bg` when unset.
    pub fn hover_bg(self, color: Color) -> (r: Self)
        ensures
            r == (SharedStyle { hover_bg: Some(color), ..self }),
    {
        let mut s = self;
        s.hover_bg = Some(color);
        s
    }

    /// Background fill while the widget is pressed. Falls back to `hover_bg` / `bg` when unset.
    pub fn active_bg(self, color: Color) -> (r: Self)
        ensures
            r == (SharedStyle { active_bg: Some(color), ..self }),
    {
        let mut s = self;
        s.active_bg = Some(color);
        s
    }

    /// Background fill while the widget has keyboard focus. Falls back to `bg` when unset.
    pub fn focus_bg(self, color: Color) -> (r: Self)
        ensures
            r == (SharedStyle { focus_bg: Some(color), ..self }),
    {
        let mut s = self;
        s.focus_bg = Some(color);
        s
    }

    /// Set the accent colour (egui's selection fill: slider trail, text selection, focus ring).
    pub fn accent(self, color: Color) -> (r: Self)
        ensures
            r == (SharedStyle { accent: Some(color), ..self }),
    {
        let mut s = self;
        s.accent = Some(color);
        s
    }

    /// Accent colour while hovering. Falls back to `accent` when unset.
    pub fn hover_accent(self, color: Color) -> (r: Self)
        ensures
            r == (SharedStyle { hover_accent: Some(color), ..self }),
    {
        let mut s = self;
        s.hover_accent = Some(color);
        s
    }

    /// Set the text / foreground colour.
    pub fn text_color(self, color: Color) -> (r: Self)
        ensures
            r == (SharedStyle { text_color: Some(color), ..self }),
    {
        let mut s = self;
        s.text_color = Some(color);
        s
    }

    /// Text colour while hovering. Falls back to `text_color` when unset.
    pub fn hover_text_color(self, color: Color) -> (r: Self)
        ensures
            r == (SharedStyle { hover_text_color: Some(color), ..self }),
    {
        let mut s = self;
        s.hover_text_color = Some(color);
        s
    }

    /// Text colour while focused; wins over the hover colour. Falls back to
    /// the hover or base text colour when unset.
    pub fn focus_text_color(self, color: Color) -> (r: Self)
        ensures
            r == (SharedStyle { focus_text_color: Some(color), ..self }),
    {
        let mut s = self;
        s.focus_text_color = Some(color);
        s
    }

    /// Set the base border stroke.
    pub fn border(self, stroke: Stroke) -> (r: Self)
        ensures
            r == (SharedStyle { border: Some(stroke), ..self }),
    {
        let mut s = self;
        s.border = Some(stroke);
        s
    }

    /// Border stroke while hovering. Falls back to `border` when unset.
    pub fn hover_border(self, stroke: Stroke) -> (r: Self)
        ensures
            r == (SharedStyle { hover_border: Some(stroke), ..self }),
    {
        let mut s = self;
        s.hover_border = Some(stroke);
        s
    }

    /// Border stroke while focused. Falls back to `border` when unset.
    pub fn focus_border(self, stroke: Stroke) -> (r: Self)
        ensures
            r == (SharedStyle { focus_border: Some(stroke), ..self }),
    {
        let mut s = self;
        s.focus_border = Some(stroke);
        s
    }

    /// Set the corner radius.
    pub fn corner_radius(self, corner_radius: CornerRadius) -> (r: Self)
        ensures
            r == (SharedStyle { corner_radius: Some(corner_radius), ..self }),
    {
        let mut s = self;
        s.corner_radius = Some(corner_radius);
        s
    }

    /// Set the inner padding (space between the border and the content).
    pub fn padding(self, padding: Margin) -> (r: Self)
        ensures
            r == (SharedStyle { padding: Some(padding), ..self }),
    {
        let mut s = self;
        s.padding = Some(padding);
        s
    }

    /// Set the cursor icon shown while hovering the widget.
    pub fn cursor(self, icon: CursorIcon) -> (r: Self)
        ensures
            r == (SharedStyle { cursor_icon: Some(icon), ..self }),
    {
        let mut s = self;
        s.cursor_icon = Some(icon);
        s
    }

    /// Show or hide the widget. When `false` it keeps its layout space but is not painted or interactive.
    pub fn visible(self, visible: bool) -> (r: Self)
        ensures
            r == (SharedStyle { visible: Some(visible), ..self }),
    {
        let mut s = self;
        s.visible = Some(visible);
        s
    }

    /// Set a background texture drawn on top of `bg`, clipped to the same rounded rect.
    pub fn background_image(self, image: Image<'static>) -> (r: Self)
        ensures
            r == (SharedStyle { background_image: Some(image), ..self }),
    {
        let mut s = self;
        s.background_image = Some(image);
        s
    }

    /// Multiply the background image colour by `tint` (default: white, no tint).
    pub fn background_image_tint(self, tint: Color) -> (r: Self)
        ensures
            r == (SharedStyle { background_image_tint: Some(tint), ..self }),
    {
        let mut s = self;
        s.background_image_tint = Some(tint);
        s
    }

    /// Set the base top border. Unset sides fall back to the uniform border.
    pub fn border_top(self, stroke: Stroke) -> (r: Self)
        ensures
            r == (SharedStyle { border_sides: SideStrokes { top: Some(stroke), ..self.border_sides }, ..self }),
    {
        let mut s = self;
        s.border_sides.top = Some(stroke);
        s
    }

    /// Set the base right border. Unset sides fall back to the uniform border.
    pub fn border_right(self, stroke: Stroke) -> (r: Self)
        ensures
            r == (SharedStyle { border_sides: SideStrokes { right: Some(stroke), ..self.border_sides }, ..self }),
    {
        let mut s = self;
        s.border_sides.right = Some(stroke);
        s
    }

    /// Set the base bottom border. Unset sides fall back to the uniform border.
    pub fn border_bottom(self, stroke: Stroke) -> (r: Self)
        ensures
            r == (SharedStyle { border_sides: SideStrokes { bottom: Some(stroke), ..self.border_sides }, ..self }),
    {
        let mut s = self;
        s.border_sides.bottom = Some(stroke);
        s
    }

    /// Set the base left border. Unset sides fall back to the uniform border.
    pub fn border_left(self, stroke: Stroke) -> (r: Self)
        ensures
            r == (SharedStyle { border_sides: SideStrokes { left: Some(stroke), ..self.border_sides }, ..self }),
    {
        let mut s = self;
        s.border_sides.left = Some(stroke);
        s
    }

    /// Set the base left **and** right borders in one call.
    pub fn border_x(self, stroke: Stroke) -> (r: Self)
        ensures
            r == (SharedStyle {
                border_sides: SideStrokes { left: Some(stroke), right: Some(stroke), ..self.border_sides },
                ..self
            }),
    {
        let mut s = self;
        s.border_sides.left = Some(stroke);
        s.border_sides.right = Some(stroke);
        s
    }

    /// Set the base top **and** bottom borders in one call.
    pub fn border_y(self, stroke: Stroke) -> (r: Self)
        ensures
            r == (SharedStyle {
                border_sides: SideStrokes { top: Some(stroke), bottom: Some(stroke), ..self.border_sides },
                ..self
            }),
    {
        let mut s = self;
        s.border_sides.top = Some(stroke);
        s.border_sides.bottom = Some(stroke);
        s
    }

    /// Set the hover top border. Unset sides fall back to the uniform border.
    pub fn hover_border_top(self, stroke: Stroke) -> (r: Self)
        ensures
            r == (SharedStyle { hover_border_sides: SideStrokes { top: Some(stroke), ..self.hover_border_sides }, ..self }),
    {
        let mut s = self;
        s.hover_border_sides.top = Some(stroke);
        s
    }

    /// Set the hover right border. Unset sides fall back to the uniform border.
    pub fn hover_border_right(self, stroke: Stroke) -> (r: Self)
        ensures
            r == (SharedStyle { hover_border_sides: SideStrokes { right: Some(stroke), ..self.hover_border_sides }, ..self }),
    {
        let mut s = self;
        s.hover_border_sides.right = Some(stroke);
        s
    }

    /// Set the hover bottom border. Unset sides fall back to the uniform border.
    pub fn hover_border_bottom(self, stroke: Stroke) -> (r: Self)
        ensures
            r == (SharedStyle { hover_border_sides: SideStrokes { bottom: Some(stroke), ..self.hover_border_sides }, ..self }),
    {
        let mut s = self;
        s.hover_border_sides.bottom = Some(stroke);
        s
    }

    /// Set the hover left border. Unset sides fall back to the uniform border.
    pub fn hover_border_left(self, stroke: Stroke) -> (r: Self)
        ensures
            r == (SharedStyle { hover_border_sides: SideStrokes { left: Some(stroke), ..self.hover_border_sides }, ..self }),
    {
        let mut s = self;
        s.hover_border_sides.left = Some(stroke);
        s
    }

    /// Set the hover left **and** right borders in one call.
    pub fn hover_border_x(self, stroke: Stroke) -> (r: Self)
        ensures
            r == (SharedStyle {
                hover_border_sides: SideStrokes { left: Some(stroke), right: Some(stroke), ..self.hover_border_sides },
                ..self
            }),
    {
        let mut s = self;
        s.hover_border_sides.left = Some(stroke);
        s.hover_border_sides.right = Some(stroke);
        s
    }

    /// Set the hover top **and** bottom borders in one call.
    pub fn hover_border_y(self, stroke: Stroke) -> (r: Self)
        ensures
            r == (SharedStyle {
                hover_border_sides: SideStrokes { top: Some(stroke), bottom: Some(stroke), ..self.hover_border_sides },
                ..self
            }),
    {
        let mut s = self;
        s.hover_border_sides.top = Some(stroke);
        s.hover_border_sides.bottom = Some(stroke);
        s
    }

    /// Set the focus top border. Unset sides fall back to the uniform border.
    pub fn focus_border_top(self, stroke: Stroke) -> (r: Self)
        ensures
            r == (SharedStyle { focus_border_sides: SideStrokes { top: Some(stroke), ..self.focus_border_sides }, ..self }),
    {
        let mut s = self;
        s.focus_border_sides.top = Some(stroke);
        s
    }

    /// Set the focus right border. Unset sides fall back to the uniform border.
    pub fn focus_border_right(self, stroke: Stroke) -> (r: Self)
        ensures
            r == (SharedStyle { focus_border_sides: SideStrokes { right: Some(stroke), ..self.focus_border_sides }, ..self }),
    {
        let mut s = self;
        s.focus_border_sides.right = Some(stroke);
        s
    }

    /// Set the focus bottom border. Unset sides fall back to the uniform border.
    pub fn focus_border_bottom(self, stroke: Stroke) -> (r: Self)
        ensures
            r == (SharedStyle { focus_border_sides: SideStrokes { bottom: Some(stroke), ..self.focus_border_sides }, ..self }),
    {
        let mut s = self;
        s.focus_border_sides.bottom = Some(stroke);
        s
    }

    /// Set the focus left border. Unset sides fall back to the uniform border.
    pub fn focus_border_left(self, stroke: Stroke) -> (r: Self)
        ensures
            r == (SharedStyle { focus_border_sides: SideStrokes { left: Some(stroke), ..self.focus_border_sides }, ..self }),
    {
        let mut s = self;
        s.focus_border_sides.left = Some(stroke);
        s
    }

    /// Set the focus left **and** right borders in one call.
    pub fn focus_border_x(self, stroke: Stroke) -> (r: Self)
        ensures
            r == (SharedStyle {
                focus_border_sides: SideStrokes { left: Some(stroke), right: Some(stroke), ..self.focus_border_sides },
                ..self
            }),
    {
        let mut s = self;
        s.focus_border_sides.left = Some(stroke);
        s.focus_border_sides.right = Some(stroke);
        s
    }

    /// Set the focus top **and** bottom borders in one call.
    pub fn focus_border_y(self, stroke: Stroke) -> (r: Self)
        ensures
            r == (SharedStyle {
                focus_border_sides: SideStrokes { top: Some(stroke), bottom: Some(stroke), ..self.focus_border_sides },
                ..self
            }),
    {
        let mut s = self;
        s.focus_border_sides.top = Some(stroke);
        s.focus_border_sides.bottom = Some(stroke);
        s
    }

    /// Set the top outer margin in points (space outside the border); the
    /// other sides keep their value, or zero when no margin was set.
    pub fn margin_top(self, val: i8) -> (r: Self)
        ensures
            r == (SharedStyle { margin: Some(Margin { top: val, ..or_default(self.margin, Margin::zero_spec()) }), ..self }),
    {
        let mut s = self;
        let mut m = unwrap_or(s.margin, Margin::zero());
        m.top = val;
        s.margin = Some(m);
        s
    }

    /// Set the bottom outer margin in points (space outside the border); the
    /// other sides keep their value, or zero when no margin was set.
    pub fn margin_bottom(self, val: i8) -> (r: Self)
        ensures
            r == (SharedStyle { margin: Some(Margin { bottom: val, ..or_default(self.margin, Margin::zero_spec()) }), ..self }),
    {
        let mut s = self;
        let mut m = unwrap_or(s.margin, Margin::zero());
        m.bottom = val;
        s.margin = Some(m);
        s
    }

    /// Set the left outer margin in points (space outside the border); the
    /// other sides keep their value, or zero when no margin was set.
    pub fn margin_left(self, val: i8) -> (r: Self)
        ensures
            r == (SharedStyle { margin: Some(Margin { left: val, ..or_default(self.margin, Margin::zero_spec()) }), ..self }),
    {
        let mut s = self;
        let mut m = unwrap_or(s.margin, Margin::zero());
        m.left = val;
        s.margin = Some(m);
        s
    }

    /// Set the right outer margin in points (space outside the border); the
    /// other sides keep their value, or zero when no margin was set.
    pub fn margin_right(self, val: i8) -> (r: Self)
        ensures
            r == (SharedStyle { margin: Some(Margin { right: val, ..or_default(self.margin, Margin::zero_spec()) }), ..self }),
    {
        let mut s = self;
        let mut m = unwrap_or(s.margin, Margin::zero());
        m.right = val;
        s.margin = Some(m);
        s
    }

    /// Stretch the widget to fill the available width of its parent.
    pub fn full_width(self) -> (r: Self)
        ensures
            r == (SharedStyle { full_width: true, ..self }),
    {
        let mut s = self;
        s.full_width = true;
        s
    }

    /// Stretch the widget to fill the available height of its parent.
    pub fn full_height(self) -> (r: Self)
        ensures
            r == (SharedStyle { full_height: true, ..self }),
    {
        let mut s = self;
        s.full_height = true;
        s
    }

    /// Override the fill mode of the background image.
    pub fn background_image_fit(self, fit: BackgroundImageFit) -> (r: Self)
        ensures
            r == (SharedStyle { background_image_fit: fit, ..self }),
    {
        let mut s = self;
        s.background_image_fit = fit;
        s
    }

    /// Reveal the body content together with the background image (the
    /// duration of the fade is kept by the rendering layer).
    pub fn reveal_with_background_image(self) -> (r: Self)
        ensures
            r == (SharedStyle { background_image_fade_content: true, ..self }),
    {
        let mut s = self;
        s.background_image_fade_content = true;
        s
    }

    /// Append a shadow painted behind the widget. Multiple calls append, in
    /// call order; every other field is left as it was.
    pub fn shadow(self, shadow: Shadow) -> (r: Self)
        ensures
            r.shadows@ == self.shadows@.push(shadow),
            r == (SharedStyle { shadows: r.shadows, ..self }),
    {
        let mut s = self;
        s.shadows.push(shadow);
        s
    }
}

} // verus!
