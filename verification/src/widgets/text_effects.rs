//! Glyph-shaped text effects: what a label stamps, and in which order.
use vstd::prelude::*;
use egui::Vec2;
use crate::color::Color;

verus! {

/// Quality knob for text glow rendering.
///
/// Glow is a sunflower disk of glyph stamps; `samples` is a base density (the
/// stamp count at an 8px radius). The default of 64 blends cleanly at typical
/// sizes; drop to 32 for dense UIs, or raise it for extra-smooth hero text.
#[derive(Clone, Copy, Debug, PartialEq, Eq, Structural)]
pub struct GlowQuality {
    /// Base stamp density (count at an 8px radius). Default: 64.
    pub samples: u32,
}

impl Default for GlowQuality {
    fn default() -> (q: GlowQuality)
        ensures
            q.samples == 64,
    {
        GlowQuality { samples: 64 }
    }
}

/// A glyph-shaped shadow stamp: the laid-out text repainted at `offset` in
/// `color`. Two opposite shadows make a chromatic-aberration split.
#[derive(Clone, Copy, Debug)]
pub struct TextShadow {
    pub offset: Vec2,
    pub color: Color,
}

/// All text-effect state carried by a styled label. The outline (`O`), glow
/// (`G`) and scale (`S`) payloads carry floating-point geometry and are kept
/// opaque here.
#[derive(Clone, Debug)]
pub struct TextEffects<O, G, S> {
    /// Shadows, painted in call order from the bottom up.
    pub shadows: Vec<TextShadow>,
    pub outline: Option<O>,
    pub glow: Option<G>,
    pub glow_quality: GlowQuality,
    /// Scale applied to every stamp, leaving the layout footprint untouched.
    pub scale: Option<S>,
}

/// One layer of a label's text stamps, bottom to top.
#[derive(Clone, Copy, Debug)]
pub enum TextLayer<O, G> {
    Glow(G),
    Shadow(TextShadow),
    Outline(O),
    /// The text itself.
    Main,
}

impl<O, G, S> TextEffects<O, G, S> {
    pub open spec fn is_empty_spec(self) -> bool {
        self.shadows@.len() == 0 && self.outline is None && self.glow is None && self.scale is None
    }

    /// The stamp order: glow at the bottom, then the shadows in call order,
    /// then the outline, then the text on top.
    pub open spec fn layers_spec(self) -> Seq<TextLayer<O, G>> {
        (match self.glow {
            Some(g) => seq![TextLayer::Glow(g)],
            None => Seq::empty(),
        }) + self.shadows@.map_values(|s: TextShadow| TextLayer::<O, G>::Shadow(s)) + (match self.outline {
            Some(o) => seq![TextLayer::Outline(o)],
            None => Seq::empty(),
        }) + seq![TextLayer::Main]
    }

    /// No effects at all: the label can take egui's own fast path.
    pub fn new() -> (e: Self)
        ensures
            e.is_empty_spec(),
            e.glow_quality.samples == 64,
    {
        TextEffects {
            shadows: Vec::new(),
            outline: None,
            glow: None,
            glow_quality: GlowQuality::default(),
            scale: None,
        }
    }

    /// True when no effect is set (the glow quality alone is not an effect).
    pub fn is_empty(&self) -> (b: bool)
        ensures
            b == self.is_empty_spec(),
    {
        self.shadows.len() == 0 && self.outline.is_none() && self.glow.is_none() && self.scale.is_none()
    }

    /// Append a shadow; every other effect is left as it was.
    pub fn push_shadow(&mut self, s: TextShadow)
        ensures
            final(self).shadows@ == old(self).shadows@.push(s),
            final(self).outline == old(self).outline,
            final(self).glow == old(self).glow,
            final(self).glow_quality == old(self).glow_quality,
            final(self).scale == old(self).scale,
    {
        self.shadows.push(s);
    }
}

impl<O: Copy, G: Copy, S> TextEffects<O, G, S> {
    /// The layers to stamp, bottom to top.
    pub fn layers(&self) -> (l: Vec<TextLayer<O, G>>)
        ensures
            l@ == self.layers_spec(),
    {
        let mut l: Vec<TextLayer<O, G>> = Vec::new();
        if let Some(g) = self.glow {
            l.push(TextLayer::Glow(g));
        }
        let ghost start = l@;
        let mut i: usize = 0;
        while i < self.shadows.len()
            invariant
                i <= self.shadows@.len(),
                l@ == start + self.shadows@.subrange(0, i as int).map_values(|s: TextShadow| TextLayer::<O, G>::Shadow(s)),
            decreases self.shadows@.len() - i,
        {
            l.push(TextLayer::Shadow(self.shadows[i]));
            proof {
                assert(self.shadows@.subrange(0, i + 1) =~= self.shadows@.subrange(0, i as int).push(self.shadows@[i as int]));
                assert(l@ =~= start + self.shadows@.subrange(0, i + 1).map_values(|s: TextShadow| TextLayer::<O, G>::Shadow(s)));
            }
            i = i + 1;
        }
        proof {
            assert(self.shadows@.subrange(0, self.shadows@.len() as int) =~= self.shadows@);
        }
        if let Some(o) = self.outline {
            l.push(TextLayer::Outline(o));
        }
        l.push(TextLayer::Main);
        proof {
            assert(l@ =~= self.layers_spec());
        }
        l
    }
}

impl<O, G, S> Default for TextEffects<O, G, S> {
    fn default() -> (e: Self)
        ensures
            e.is_empty_spec(),
            e.glow_quality.samples == 64,
    {
        TextEffects::new()
    }
}

} // verus!
