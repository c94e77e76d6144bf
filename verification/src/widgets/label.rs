//! Decisions of the styled label.
use vstd::prelude::*;
use egui::Stroke;
use crate::color::Color;
use crate::style::geometry::{CornerRadius, Margin};
use crate::style::shared_style::SharedStyle;
use crate::style::sides::{or_default, unwrap_or};

verus! {

/// The box a label is framed in. Labels are not interactive, so only base
/// fields count and the pseudo-state fields have no effect.
#[derive(Clone, Copy, Debug)]
pub struct LabelBox {
    /// The base fill, or transparent.
    pub fill: Color,
    /// The base border; `None` means no stroke.
    pub stroke: Option<Stroke>,
    pub corner_radius: CornerRadius,
    pub padding: Margin,
    pub margin: Margin,
}

impl<G, I, B> SharedStyle<G, I, B> {
    /// The static box of a label over the inactive corner radius of egui's
    /// visuals.
    pub fn label_box(&self, default_corner_radius: CornerRadius) -> (b: LabelBox)
        ensures
            b.fill == or_default(self.bg, Color::transparent_spec()),
            b.stroke == self.border,
            b.corner_radius == or_default(self.corner_radius, default_corner_radius),
            b.padding == or_default(self.padding, Margin::zero_spec()),
            b.margin == or_default(self.margin, Margin::zero_spec()),
    {
        LabelBox {
            fill: unwrap_or(self.bg, Color::transparent()),
            stroke: self.border,
            corner_radius: unwrap_or(self.corner_radius, default_corner_radius),
            padding: unwrap_or(self.padding, Margin::zero()),
            margin: unwrap_or(self.margin, Margin::zero()),
        }
    }
}

} // verus!
