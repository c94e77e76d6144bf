//! An RGBA colour with premultiplied alpha, byte for byte the layout of
//! `egui::Color32`, and the colour helpers built on it.
use vstd::prelude::*;

verus! {

/// An sRGBA colour with premultiplied alpha, one byte per channel.
///
/// The rendering layer converts it to and from `egui::Color32` byte for byte.
#[derive(Clone, Copy, Debug, PartialEq, Eq, Hash, Structural)]
pub struct Color {
    pub r: u8,
    pub g: u8,
    pub b: u8,
    pub a: u8,
}

/// The colour the egui colour constructor for unmultiplied input produces for
/// the given channels (its per-channel premultiplication goes through a table
/// of rounded float products).
pub uninterp spec fn unmultiplied_color(r: u8, g: u8, b: u8, a: u8) -> Color;

/// Calls `egui::Color32::from_rgba_unmultiplied` and reads the bytes back.
///
/// Claims what that function's source shows: the alpha byte is `a`; alpha 0
/// gives fully transparent black; alpha 255 keeps the colour channels as
/// given. For other alphas the premultiplied channels are named by
/// [`unmultiplied_color`] and nothing more is said of them.
#[verifier::external_body]
fn egui_from_rgba_unmultiplied(r: u8, g: u8, b: u8, a: u8) -> (c: Color)
    ensures
        c == unmultiplied_color(r, g, b, a),
        c.a == a,
        a == 0 ==> c == (Color { r: 0, g: 0, b: 0, a: 0 }),
        a == 255 ==> c == (Color { r, g, b, a: 255 }),
{
    let [r, g, b, a] = egui::Color32::from_rgba_unmultiplied(r, g, b, a).to_array();
    Color { r, g, b, a }
}

/// The unmultiplied `[r, g, b, a]` that egui's conversion back from
/// premultiplied alpha gives for a colour (its colour channels are divided
/// by the alpha in floating point and rounded).
pub uninterp spec fn unmultiplied_channels(c: Color) -> (u8, u8, u8, u8);

/// Calls `egui::Color32::to_srgba_unmultiplied` on the colour's bytes.
///
/// Claims what that function's source shows: the alpha byte is kept, and at
/// alpha 0 or 255 the bytes come back unchanged. For other alphas the colour
/// channels are named by [`unmultiplied_channels`] and nothing more is said
/// of them.
#[verifier::external_body]
fn egui_to_srgba_unmultiplied(c: Color) -> (u: (u8, u8, u8, u8))
    ensures
        u == unmultiplied_channels(c),
        u.3 == c.a,
        c.a == 0 || c.a == 255 ==> u == (c.r, c.g, c.b, c.a),
{
    let [r, g, b, a] = egui::Color32::from_rgba_premultiplied(c.r, c.g, c.b, c.a).to_srgba_unmultiplied();
    (r, g, b, a)
}

impl Color {
    /// An opaque colour.
    pub fn from_rgb(r: u8, g: u8, b: u8) -> (c: Color)
        ensures
            c == (Color { r, g, b, a: 255 }),
    {
        Color { r, g, b, a: 255 }
    }

    /// A colour whose channels are already premultiplied by `a`.
    pub fn from_rgba_premultiplied(r: u8, g: u8, b: u8, a: u8) -> (c: Color)
        ensures
            c == (Color { r, g, b, a }),
    {
        Color { r, g, b, a }
    }

    /// An opaque gray of lightness `l`.
    pub fn from_gray(l: u8) -> (c: Color)
        ensures
            c == (Color { r: l, g: l, b: l, a: 255 }),
    {
        Color { r: l, g: l, b: l, a: 255 }
    }

    /// Black with opacity `a`.
    pub fn from_black_alpha(a: u8) -> (c: Color)
        ensures
            c == (Color { r: 0, g: 0, b: 0, a }),
    {
        Color { r: 0, g: 0, b: 0, a }
    }

    /// The four premultiplied bytes `[r, g, b, a]`.
    pub fn to_array(&self) -> (bytes: [u8; 4])
        ensures
            bytes@ == seq![self.r, self.g, self.b, self.a],
    {
        [self.r, self.g, self.b, self.a]
    }

    pub open spec fn transparent_spec() -> Color {
        Color { r: 0, g: 0, b: 0, a: 0 }
    }

    pub open spec fn white_spec() -> Color {
        Color { r: 255, g: 255, b: 255, a: 255 }
    }

    /// Fully transparent black.
    pub fn transparent() -> (c: Color)
        ensures
            c == Color::transparent_spec(),
    {
        Color { r: 0, g: 0, b: 0, a: 0 }
    }

    /// Opaque black.
    pub fn black() -> (c: Color)
        ensures
            c == (Color { r: 0, g: 0, b: 0, a: 255 }),
    {
        Color::from_rgb(0, 0, 0)
    }

    /// Opaque white.
    pub fn white() -> (c: Color)
        ensures
            c == Color::white_spec(),
    {
        Color::from_rgb(255, 255, 255)
    }

    /// Opaque red.
    pub fn red() -> (c: Color)
        ensures
            c == (Color { r: 255, g: 0, b: 0, a: 255 }),
    {
        Color::from_rgb(255, 0, 0)
    }

    /// Opaque green.
    pub fn green() -> (c: Color)
        ensures
            c == (Color { r: 0, g: 255, b: 0, a: 255 }),
    {
        Color::from_rgb(0, 255, 0)
    }

    /// Opaque blue.
    pub fn blue() -> (c: Color)
        ensures
            c == (Color { r: 0, g: 0, b: 255, a: 255 }),
    {
        Color::from_rgb(0, 0, 255)
    }

    /// Opaque yellow.
    pub fn yellow() -> (c: Color)
        ensures
            c == (Color { r: 255, g: 255, b: 0, a: 255 }),
    {
        Color::from_rgb(255, 255, 0)
    }

    /// A copy of this colour with its alpha replaced.
    ///
    /// The stored colour is first taken back to unmultiplied channels, and
    /// those channels are premultiplied again by the new alpha, so only the
    /// opacity changes. At the new alpha 255 the result is the unmultiplied
    /// colour itself; at alpha 0 it is transparent black.
    pub fn with_alpha(self, alpha: u8) -> (c: Color)
        ensures
            ({
                let u = unmultiplied_channels(self);
                &&& c == unmultiplied_color(u.0, u.1, u.2, alpha)
                &&& alpha == 255 ==> c == (Color { r: u.0, g: u.1, b: u.2, a: 255 })
            }),
            c.a == alpha,
            alpha == 0 ==> c == Color::transparent_spec(),
            self.a == 255 && alpha == 255 ==> c == self,
    {
        let (r, g, b, _) = egui_to_srgba_unmultiplied(self);
        egui_from_rgba_unmultiplied(r, g, b, alpha)
    }
}

/// Shorthand for [`Color::from_rgb`].
pub fn rgb(r: u8, g: u8, b: u8) -> (c: Color)
    ensures
        c == (Color { r, g, b, a: 255 }),
{
    Color::from_rgb(r, g, b)
}

/// Shorthand for [`Color::from_rgba_premultiplied`].
pub fn rgba(r: u8, g: u8, b: u8, a: u8) -> (c: Color)
    ensures
        c == (Color { r, g, b, a }),
{
    Color::from_rgba_premultiplied(r, g, b, a)
}

} // verus!
