//! Pseudo-state style resolution and layout decisions for styled egui widgets.
//!
//! The library holds the style bag carried by every styled widget, the rules
//! that turn it into concrete per-state paint values, and the small layout and
//! paint decisions each widget makes before it hands the result to egui.
use vstd::prelude::*;

pub mod apply;
pub mod color;
pub mod containers;
pub mod mesh;
pub mod outside;
pub mod state;
pub mod style;
pub mod theme;
pub mod widgets;

pub use apply::Apply;
pub use color::{rgb, rgba, Color};
pub use containers::spacer::StyledSpacer;
pub use state::PseudoState;
pub use style::decor::{BackgroundImageFit, BgGradient, Distribution, GradientAxis, Shadow};
pub use style::geometry::{CornerRadius, Margin};
pub use style::shared_style::SharedStyle;
pub use style::sides::{ResolvedBorder, SideStrokes, Sides};
pub use widgets::text_effects::{GlowQuality, TextEffects, TextLayer, TextShadow};

verus! {

/// Namespace for the styled constructors.
///
/// The constructors of widgets whose builders carry floating-point or egui
/// rendering state are attached by the rendering layer through an extension
/// trait; the ones that need nothing of the kind stand here.
pub struct Styled;

impl Styled {
    /// A flexible spacer (see [`StyledSpacer`]).
    pub fn spacer() -> (r: StyledSpacer)
        ensures
            r == StyledSpacer::new_spec(),
    {
        StyledSpacer::new()
    }
}

} // verus!
