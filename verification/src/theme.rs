//! A starter colour palette with web-style semantic names.
use vstd::prelude::*;
use crate::color::Color;

verus! {

/// A starter colour palette with web-style semantic names.
///
/// Opt-in: good for SaaS / dashboard / docs UIs. Apps with their own design
/// language define their own palette type instead.
#[derive(Clone, Copy, Debug, PartialEq, Eq, Structural)]
pub struct WebPalette {
    // Backgrounds
    pub bg_primary: Color,
    pub bg_secondary: Color,
    pub bg_surface: Color,
    pub bg_elevated: Color,
    // Foregrounds
    pub fg_primary: Color,
    pub fg_secondary: Color,
    pub fg_muted: Color,
    /// Text drawn on top of saturated / accent surfaces.
    pub fg_on_accent: Color,
    // Accent
    pub accent: Color,
    pub accent_hover: Color,
    pub accent_active: Color,
    // Status
    pub error: Color,
    pub warning: Color,
    pub success: Color,
    // Borders
    pub border: Color,
    pub border_focus: Color,
}

pub open spec fn gray(l: u8) -> Color {
    Color { r: l, g: l, b: l, a: 255 }
}

pub open spec fn opaque(r: u8, g: u8, b: u8) -> Color {
    Color { r, g, b, a: 255 }
}

impl Default for WebPalette {
    /// A deliberately bland neutral palette: mid-gray backgrounds, near-white
    /// foregrounds, a plain blue accent.
    fn default() -> (p: WebPalette)
        ensures
            p == (WebPalette {
                bg_primary: gray(30),
                bg_secondary: gray(40),
                bg_surface: gray(50),
                bg_elevated: gray(60),
                fg_primary: gray(230),
                fg_secondary: gray(180),
                fg_muted: gray(130),
                fg_on_accent: Color::white_spec(),
                accent: opaque(70, 120, 200),
                accent_hover: opaque(90, 140, 220),
                accent_active: opaque(55, 100, 180),
                error: opaque(200, 80, 80),
                warning: opaque(200, 160, 60),
                success: opaque(80, 180, 110),
                border: gray(80),
                border_focus: opaque(120, 160, 240),
            }),
    {
        WebPalette {
            bg_primary: Color::from_gray(30),
            bg_secondary: Color::from_gray(40),
            bg_surface: Color::from_gray(50),
            bg_elevated: Color::from_gray(60),
            fg_primary: Color::from_gray(230),
            fg_secondary: Color::from_gray(180),
            fg_muted: Color::from_gray(130),
            fg_on_accent: Color::white(),
            accent: Color::from_rgb(70, 120, 200),
            accent_hover: Color::from_rgb(90, 140, 220),
            accent_active: Color::from_rgb(55, 100, 180),
            error: Color::from_rgb(200, 80, 80),
            warning: Color::from_rgb(200, 160, 60),
            success: Color::from_rgb(80, 180, 110),
            border: Color::from_gray(80),
            border_focus: Color::from_rgb(120, 160, 240),
        }
    }
}

} // verus!
