//! Decisions of the styled image.
use vstd::prelude::*;
use egui::Stroke;
use crate::color::Color;
use crate::style::per_state::PerStateStyle;
use crate::style::sides::or_default;

verus! {

/// The tint an image is drawn with: while hovered the hover tint, falling
/// back to the tint; otherwise the tint; white (no tint) when neither is set.
pub fn image_tint(tint: Option<Color>, hover_tint: Option<Color>, hovered: bool) -> (c: Color)
    ensures
        hovered ==> c == or_default(hover_tint, or_default(tint, Color::white_spec())),
        !hovered ==> c == or_default(tint, Color::white_spec()),
{
    let base = match tint {
        Some(t) => t,
        None => Color::white(),
    };
    if hovered {
        match hover_tint {
            Some(h) => h,
            None => base,
        }
    } else {
        base
    }
}

/// The border painted around an image (when its inactive border is not the
/// empty stroke): the hovered border while hovered, the inactive one otherwise.
pub fn image_border<G, I, B>(per: &PerStateStyle<'_, G, I, B>, hovered: bool) -> (s: Stroke)
    ensures
        hovered ==> s == per.hovered.border,
        !hovered ==> s == per.inactive.border,
{
    if hovered {
        per.hovered.border
    } else {
        per.inactive.border
    }
}

} // verus!
