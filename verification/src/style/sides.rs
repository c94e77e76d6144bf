//! Edge selections and per-side border strokes.
use vstd::prelude::*;
use egui::Stroke;

verus! {

/// A selection of the four rectangle edges, used by per-side inner glows.
#[derive(Clone, Copy, Debug, PartialEq, Eq, Hash, Structural)]
pub struct Sides {
    pub top: bool,
    pub right: bool,
    pub bottom: bool,
    pub left: bool,
}

impl Sides {
    pub open spec fn is_all_spec(self) -> bool {
        self.top && self.right && self.bottom && self.left
    }

    pub open spec fn any_spec(self) -> bool {
        self.top || self.right || self.bottom || self.left
    }

    /// All four edges.
    pub fn all() -> (s: Sides)
        ensures
            s == (Sides { top: true, right: true, bottom: true, left: true }),
    {
        Sides { top: true, right: true, bottom: true, left: true }
    }

    /// Top and bottom edges only.
    pub fn y() -> (s: Sides)
        ensures
            s == (Sides { top: true, right: false, bottom: true, left: false }),
    {
        Sides { top: true, right: false, bottom: true, left: false }
    }

    /// Left and right edges only.
    pub fn x() -> (s: Sides)
        ensures
            s == (Sides { top: false, right: true, bottom: false, left: true }),
    {
        Sides { top: false, right: true, bottom: false, left: true }
    }

    /// The top edge only.
    pub fn top_only() -> (s: Sides)
        ensures
            s == (Sides { top: true, right: false, bottom: false, left: false }),
    {
        Sides { top: true, right: false, bottom: false, left: false }
    }

    /// The right edge only.
    pub fn right_only() -> (s: Sides)
        ensures
            s == (Sides { top: false, right: true, bottom: false, left: false }),
    {
        Sides { top: false, right: true, bottom: false, left: false }
    }

    /// The bottom edge only.
    pub fn bottom_only() -> (s: Sides)
        ensures
            s == (Sides { top: false, right: false, bottom: true, left: false }),
    {
        Sides { top: false, right: false, bottom: true, left: false }
    }

    /// The left edge only.
    pub fn left_only() -> (s: Sides)
        ensures
            s == (Sides { top: false, right: false, bottom: false, left: true }),
    {
        Sides { top: false, right: false, bottom: false, left: true }
    }

    /// True when every edge is selected.
    pub fn is_all(&self) -> (b: bool)
        ensures
            b == self.is_all_spec(),
    {
        self.top && self.right && self.bottom && self.left
    }

    /// True when at least one edge is selected.
    pub fn any(&self) -> (b: bool)
        ensures
            b == self.any_spec(),
    {
        self.top || self.right || self.bottom || self.left
    }
}

/// How an inner glow is built for an edge selection.
#[derive(Clone, Debug)]
pub enum GlowLayout {
    /// Nothing to draw.
    Nothing,
    /// A full ring following the corner radius.
    Ring,
    /// Straight bands from single edges, in this order.
    Bands(Vec<Sides>),
}

/// The single-edge selection of each selected edge, in the order top,
/// bottom, left, right.
pub open spec fn selected_bands(s: Sides) -> Seq<Sides> {
    let none = Sides { top: false, right: false, bottom: false, left: false };
    (if s.top { seq![Sides { top: true, ..none }] } else { Seq::empty() })
        + (if s.bottom { seq![Sides { bottom: true, ..none }] } else { Seq::empty() })
        + (if s.left { seq![Sides { left: true, ..none }] } else { Seq::empty() })
        + (if s.right { seq![Sides { right: true, ..none }] } else { Seq::empty() })
}

impl Sides {
    /// How an inner glow of colour alpha `alpha` is drawn from these edges:
    /// nothing when fully transparent or no edge is selected; a ring
    /// following the corner radius when all four are; otherwise one straight
    /// band per selected edge.
    pub fn glow_layout(&self, alpha: u8) -> (l: GlowLayout)
        ensures
            alpha == 0 || !self.any_spec() <==> l is Nothing,
            alpha != 0 && self.is_all_spec() ==> l is Ring,
            alpha != 0 && self.any_spec() && !self.is_all_spec() ==> (l matches GlowLayout::Bands(b)
                && b@ == selected_bands(*self)),
    {
        if alpha == 0 || !self.any() {
            return GlowLayout::Nothing;
        }
        if self.is_all() {
            return GlowLayout::Ring;
        }
        let mut bands: Vec<Sides> = Vec::new();
        if self.top {
            bands.push(Sides::top_only());
        }
        if self.bottom {
            bands.push(Sides::bottom_only());
        }
        if self.left {
            bands.push(Sides::left_only());
        }
        if self.right {
            bands.push(Sides::right_only());
        }
        proof {
            assert(bands@ =~= selected_bands(*self));
        }
        GlowLayout::Bands(bands)
    }
}

/// Per-side border overrides. Each side is `None` until set; an unset side
/// falls back to the uniform border at resolve time.
#[derive(Clone, Copy, Debug)]
pub struct SideStrokes {
    pub top: Option<Stroke>,
    pub right: Option<Stroke>,
    pub bottom: Option<Stroke>,
    pub left: Option<Stroke>,
}

/// A border resolved to a concrete stroke per side.
#[derive(Clone, Copy, Debug)]
pub struct ResolvedBorder {
    pub top: Stroke,
    pub right: Stroke,
    pub bottom: Stroke,
    pub left: Stroke,
}

impl SideStrokes {
    pub open spec fn none_spec() -> SideStrokes {
        SideStrokes { top: None, right: None, bottom: None, left: None }
    }

    pub open spec fn any_spec(self) -> bool {
        self.top is Some || self.right is Some || self.bottom is Some || self.left is Some
    }

    /// Each side's override, or `uniform` where the side has none.
    pub open spec fn over_spec(self, uniform: Stroke) -> ResolvedBorder {
        ResolvedBorder {
            top: or_default(self.top, uniform),
            right: or_default(self.right, uniform),
            bottom: or_default(self.bottom, uniform),
            left: or_default(self.left, uniform),
        }
    }

    /// True if any side has an explicit override.
    pub fn any(&self) -> (b: bool)
        ensures
            b == self.any_spec(),
    {
        self.top.is_some() || self.right.is_some() || self.bottom.is_some() || self.left.is_some()
    }

    /// Resolve every side against the uniform stroke `uniform`.
    pub fn over(&self, uniform: Stroke) -> (r: ResolvedBorder)
        ensures
            r == self.over_spec(uniform),
    {
        ResolvedBorder {
            top: unwrap_or(self.top, uniform),
            right: unwrap_or(self.right, uniform),
            bottom: unwrap_or(self.bottom, uniform),
            left: unwrap_or(self.left, uniform),
        }
    }
}

impl Default for SideStrokes {
    fn default() -> (s: SideStrokes)
        ensures
            s == SideStrokes::none_spec(),
    {
        SideStrokes { top: None, right: None, bottom: None, left: None }
    }
}

/// The value held by `o`, or `d` when it holds none.
pub open spec fn or_default<T>(o: Option<T>, d: T) -> T {
    match o {
        Some(v) => v,
        None => d,
    }
}

/// Executable [`or_default`].
pub fn unwrap_or<T: Copy>(o: Option<T>, d: T) -> (r: T)
    ensures
        r == or_default(o, d),
{
    match o {
        Some(v) => v,
        None => d,
    }
}

} // verus!
