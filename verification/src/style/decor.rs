//! Decoration descriptors that carry no floating-point data.
use vstd::prelude::*;
use egui::{Stroke, Vec2};
use crate::color::Color;

verus! {

/// How a background image fills its container rect when aspect ratios differ.
#[derive(Clone, Copy, Debug, PartialEq, Eq, Structural)]
pub enum BackgroundImageFit {
    /// Map the full texture over the rect (CSS `background-size: 100% 100%`).
    Stretch,
    /// Scale to cover the box, cropping overflow (CSS `background-size: cover`).
    Cover,
}

impl Default for BackgroundImageFit {
    fn default() -> (f: BackgroundImageFit)
        ensures
            f == BackgroundImageFit::Stretch,
    {
        BackgroundImageFit::Stretch
    }
}

/// The axis a linear gradient runs along.
#[derive(Clone, Copy, Debug, PartialEq, Eq, Hash, Structural)]
pub enum GradientAxis {
    /// Top to bottom.
    Vertical,
    /// Left to right.
    Horizontal,
}

/// How to distribute children horizontally across available width.
#[derive(Clone, Copy, Debug, PartialEq, Eq, Structural)]
pub enum Distribution {
    SpaceBetween,
    SpaceAround,
    SpaceEvenly,
}

/// A 4-corner gradient fill painted behind a widget, bilinearly interpolated.
#[derive(Clone, Copy, Debug, PartialEq, Eq, Hash, Structural)]
pub struct BgGradient {
    pub top_left: Color,
    pub top_right: Color,
    pub bottom_left: Color,
    pub bottom_right: Color,
}

impl BgGradient {
    /// One colour per corner.
    pub fn corners(tl: Color, tr: Color, bl: Color, br: Color) -> (g: BgGradient)
        ensures
            g == (BgGradient { top_left: tl, top_right: tr, bottom_left: bl, bottom_right: br }),
    {
        BgGradient { top_left: tl, top_right: tr, bottom_left: bl, bottom_right: br }
    }

    /// Vertical two-stop gradient (top colour to bottom colour).
    pub fn vertical(top: Color, bottom: Color) -> (g: BgGradient)
        ensures
            g == (BgGradient {
                top_left: top,
                top_right: top,
                bottom_left: bottom,
                bottom_right: bottom,
            }),
    {
        BgGradient { top_left: top, top_right: top, bottom_left: bottom, bottom_right: bottom }
    }

    /// Horizontal two-stop gradient (left colour to right colour).
    pub fn horizontal(left: Color, right: Color) -> (g: BgGradient)
        ensures
            g == (BgGradient {
                top_left: left,
                top_right: right,
                bottom_left: left,
                bottom_right: right,
            }),
    {
        BgGradient { top_left: left, top_right: right, bottom_left: left, bottom_right: right }
    }

    /// The texels of the 2×2 texture the gradient is baked into, row by row.
    pub fn texels(&self) -> (t: [Color; 4])
        ensures
            t@ == seq![self.top_left, self.top_right, self.bottom_left, self.bottom_right],
    {
        [self.top_left, self.top_right, self.bottom_left, self.bottom_right]
    }
}

/// A paint decoration rendered behind the widget rect: an offset copy of the
/// widget's bounding rect, stroked, filled, or both.
#[derive(Clone, Copy, Debug)]
pub struct Shadow {
    pub offset: Vec2,
    pub stroke: Stroke,
    pub fill: Option<Color>,
}

} // verus!
