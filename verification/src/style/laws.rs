//! Properties of the style rules that span several fields, states or
//! functions.
use vstd::prelude::*;
use egui::Stroke;
use crate::color::Color;
use crate::state::PseudoState;
use crate::style::geometry::{CornerRadius, Margin};
use crate::style::per_state::{
    active_state, focused_state, for_response_spec, hovered_state, slot_paint_spec, BorderOverlay, PerStateStyle,
    VisualsDefaults,
};
use crate::style::resolve::{
    by_border_precedence, by_fill_precedence, by_text_precedence, ResolvedStyle, WidgetDefaults,
};
use crate::style::shared_style::SharedStyle;
use crate::style::sides::{or_default, selected_bands, SideStrokes, Sides};

verus! {

/// Fill-family precedence: the pressed slot beats the hover slot, which beats
/// the focus slot, which beats the base; a slot only counts in its own state
/// and when set; with no interaction, or with no state slot set, the base
/// applies; and the result is always one of the four slots.
pub proof fn law_fill_precedence<T>(
    state: PseudoState,
    base: Option<T>,
    hover: Option<T>,
    active: Option<T>,
    focus: Option<T>,
)
    ensures
        state.active && active is Some ==> by_fill_precedence(state, base, hover, active, focus) == active,
        !(state.active && active is Some) && state.hovered && hover is Some
            ==> by_fill_precedence(state, base, hover, active, focus) == hover,
        !(state.active && active is Some) && !(state.hovered && hover is Some) && state.focused
            && focus is Some ==> by_fill_precedence(state, base, hover, active, focus) == focus,
        state == PseudoState::idle() ==> by_fill_precedence(state, base, hover, active, focus) == base,
        hover is None && active is None && focus is None
            ==> by_fill_precedence(state, base, hover, active, focus) == base,
        ({
            let r = by_fill_precedence(state, base, hover, active, focus);
            r == base || r == hover || r == active || r == focus
        }),
{
}

/// Border precedence: focus beats hover beats base; being pressed never
/// changes the border; with no interaction the base applies.
pub proof fn law_border_precedence<T>(state: PseudoState, base: Option<T>, hover: Option<T>, focus: Option<T>)
    ensures
        state.focused && focus is Some ==> by_border_precedence(state, base, hover, focus) == focus,
        !(state.focused && focus is Some) && state.hovered && hover is Some
            ==> by_border_precedence(state, base, hover, focus) == hover,
        by_border_precedence(PseudoState { active: !state.active, ..state }, base, hover, focus)
            == by_border_precedence(state, base, hover, focus),
        state == PseudoState::idle() ==> by_border_precedence(state, base, hover, focus) == base,
{
}

/// Text colour precedence: focus beats hover beats base; pressing never
/// changes the text colour; with no interaction the base applies.
pub proof fn law_text_precedence<T>(state: PseudoState, base: Option<T>, hover: Option<T>, focus: Option<T>)
    ensures
        state.focused && focus is Some ==> by_text_precedence(state, base, hover, focus) == focus,
        !(state.focused && focus is Some) && state.hovered && hover is Some
            ==> by_text_precedence(state, base, hover, focus) == hover,
        !state.hovered && !state.focused ==> by_text_precedence(state, base, hover, focus) == base,
        by_text_precedence(PseudoState { active: !state.active, ..state }, base, hover, focus)
            == by_text_precedence(state, base, hover, focus),
        by_text_precedence(state, base, hover, focus) == by_border_precedence(state, base, hover, focus),
{
}

/// Per-side borders of a resolved state: each side is its own override or
/// else the resolved uniform border; with no override in the chosen group
/// there are no overrides and every side is the uniform border.
pub proof fn law_side_fallback<'a, G, I, B>(
    style: SharedStyle<G, I, B>,
    state: PseudoState,
    d: WidgetDefaults,
    r: ResolvedStyle<'a, G, I, B>,
)
    requires
        style.resolves_to(state, d, r),
    ensures
        r.border_sides.top == or_default(style.resolved_side_group(state).top, r.border),
        r.border_sides.right == or_default(style.resolved_side_group(state).right, r.border),
        r.border_sides.bottom == or_default(style.resolved_side_group(state).bottom, r.border),
        r.border_sides.left == or_default(style.resolved_side_group(state).left, r.border),
        style.resolved_side_group(state) == SideStrokes::none_spec() ==> {
            &&& !r.has_border_overrides
            &&& r.border_sides.top == r.border
            &&& r.border_sides.right == r.border
            &&& r.border_sides.bottom == r.border
            &&& r.border_sides.left == r.border
        },
{
}

/// A state's per-side border group only wins when it has some side set:
/// while no focused group with a side applies and the hover group has no
/// side set, the base per-side overrides stay in force, whether or not the
/// pointer hovers. Each set base side keeps its own stroke, each unset side
/// shows the uniform border, and the state has overrides exactly when some
/// base side is set.
pub proof fn law_empty_side_group_keeps_base<'a, G, I, B>(
    style: SharedStyle<G, I, B>,
    state: PseudoState,
    d: WidgetDefaults,
    r: ResolvedStyle<'a, G, I, B>,
)
    requires
        style.resolves_to(state, d, r),
        !state.focused || style.focus_border_sides == SideStrokes::none_spec(),
        style.hover_border_sides == SideStrokes::none_spec(),
    ensures
        r.has_border_overrides == (style.border_sides.top is Some || style.border_sides.right is Some
            || style.border_sides.bottom is Some || style.border_sides.left is Some),
        style.border_sides.top is Some ==> r.border_sides.top == style.border_sides.top->0,
        style.border_sides.right is Some ==> r.border_sides.right == style.border_sides.right->0,
        style.border_sides.bottom is Some ==> r.border_sides.bottom == style.border_sides.bottom->0,
        style.border_sides.left is Some ==> r.border_sides.left == style.border_sides.left->0,
        style.border_sides.top is None ==> r.border_sides.top == r.border,
        style.border_sides.right is None ==> r.border_sides.right == r.border,
        style.border_sides.bottom is None ==> r.border_sides.bottom == r.border,
        style.border_sides.left is None ==> r.border_sides.left == r.border,
{
}

/// A set per-side override of the winning group always shows: when the
/// focused (or, not focused, the hovered) state's group has a side set, that
/// group is the one resolved, and its set sides are painted as given.
pub proof fn law_set_side_group_wins<'a, G, I, B>(
    style: SharedStyle<G, I, B>,
    state: PseudoState,
    d: WidgetDefaults,
    r: ResolvedStyle<'a, G, I, B>,
)
    requires
        style.resolves_to(state, d, r),
    ensures
        state.focused && style.focus_border_sides.left is Some
            ==> r.has_border_overrides && r.border_sides.left == style.focus_border_sides.left->0,
        !state.focused && state.hovered && style.hover_border_sides.left is Some
            ==> r.has_border_overrides && r.border_sides.left == style.hover_border_sides.left->0,
        !state.focused && !state.hovered && style.border_sides.left is Some
            ==> r.has_border_overrides && r.border_sides.left == style.border_sides.left->0,
        !state.focused && state.hovered && style.hover_border_sides == SideStrokes::none_spec()
            && style.border_sides.left is Some
            ==> r.has_border_overrides && r.border_sides.left == style.border_sides.left->0,
{
}

/// Of the border decorations of one resolved state exactly one paints: egui
/// keeps its own uniform stroke precisely when no border gradient and no
/// per-side edges are painted over the widget.
pub proof fn law_single_border_decoration<'a, G, I: Copy, B: Copy>(r: ResolvedStyle<'a, G, I, B>, cr: CornerRadius)
    ensures
        (slot_paint_spec(r, cr).bg_stroke is Some) <==> (r.overlays_spec().border is Uniform),
        r.border_gradient is Some ==> r.overlays_spec().border is Gradient,
        r.border_gradient is None && r.has_border_overrides ==> r.overlays_spec().border is Sides,
        slot_paint_spec(r, cr).bg_stroke is Some ==> slot_paint_spec(r, cr).bg_stroke == Some(r.border),
{
}

/// What a builder sets is what the matching state shows: `bg` in the idle
/// state, `hover_bg` while hovered and not pressed, `active_bg` while
/// pressed, `focus_border` while focused, `hover_text_color` while hovered
/// and not focused, `focus_text_color` while focused.
pub proof fn law_set_then_resolve<G, I, B>(
    style: SharedStyle<G, I, B>,
    state: PseudoState,
    d: WidgetDefaults,
    c: Color,
    s: Stroke,
)
    ensures
        (SharedStyle { bg: Some(c), ..style }).resolved_bg(PseudoState::idle(), d) == c,
        state.hovered && !(state.active && style.active_bg is Some)
            ==> (SharedStyle { hover_bg: Some(c), ..style }).resolved_bg(state, d) == c,
        state.active ==> (SharedStyle { active_bg: Some(c), ..style }).resolved_bg(state, d) == c,
        state.focused ==> (SharedStyle { focus_border: Some(s), ..style }).resolved_border(state, d) == s,
        state.hovered && !(state.focused && style.focus_text_color is Some)
            ==> (SharedStyle { hover_text_color: Some(c), ..style }).resolved_text_color(state, d) == c,
        state.focused ==> (SharedStyle { focus_text_color: Some(c), ..style }).resolved_text_color(state, d) == c,
{
}

/// Text colour, accent, cursor, visibility and stretching are not frame
/// concerns: setting them never changes whether a container needs a frame.
/// A fresh style needs none.
pub proof fn law_frame_styles_ignore_non_frame_fields<G, I, B>(
    style: SharedStyle<G, I, B>,
    c: Color,
    v: bool,
)
    ensures
        (SharedStyle { text_color: Some(c), ..style }).has_frame_styles_spec() == style.has_frame_styles_spec(),
        (SharedStyle { hover_text_color: Some(c), ..style }).has_frame_styles_spec()
            == style.has_frame_styles_spec(),
        (SharedStyle { focus_text_color: Some(c), ..style }).has_frame_styles_spec()
            == style.has_frame_styles_spec(),
        (SharedStyle { accent: Some(c), hover_accent: Some(c), ..style }).has_frame_styles_spec()
            == style.has_frame_styles_spec(),
        (SharedStyle { visible: Some(v), full_width: v, full_height: v, ..style }).has_frame_styles_spec()
            == style.has_frame_styles_spec(),
        style.is_empty_spec() ==> !style.has_frame_styles_spec(),
        (SharedStyle { bg: Some(c), ..style }).has_frame_styles_spec(),
{
}

/// Every box builder makes a container route through a frame: fills,
/// borders (uniform or per side), padding, corner radius, margin and a
/// background image.
pub proof fn law_box_builders_need_a_frame<G, I, B>(
    style: SharedStyle<G, I, B>,
    c: Color,
    s: Stroke,
    m: Margin,
    r: CornerRadius,
    img: egui::Image<'static>,
)
    ensures
        (SharedStyle { hover_bg: Some(c), ..style }).has_frame_styles_spec(),
        (SharedStyle { active_bg: Some(c), ..style }).has_frame_styles_spec(),
        (SharedStyle { focus_bg: Some(c), ..style }).has_frame_styles_spec(),
        (SharedStyle { border: Some(s), ..style }).has_frame_styles_spec(),
        (SharedStyle { hover_border: Some(s), ..style }).has_frame_styles_spec(),
        (SharedStyle { focus_border: Some(s), ..style }).has_frame_styles_spec(),
        (SharedStyle { border_sides: SideStrokes { top: Some(s), ..style.border_sides }, ..style })
            .has_frame_styles_spec(),
        (SharedStyle { padding: Some(m), ..style }).has_frame_styles_spec(),
        (SharedStyle { margin: Some(m), ..style }).has_frame_styles_spec(),
        (SharedStyle { corner_radius: Some(r), ..style }).has_frame_styles_spec(),
        (SharedStyle { background_image: Some(img), ..style }).has_frame_styles_spec(),
{
}

/// A style that needs no frame gives a frame with nothing to draw: no fill,
/// no gradient, no border of any kind, no glow, no geometry, no background
/// image.
pub proof fn law_no_frame_styles_draws_nothing<G, I, B>(style: SharedStyle<G, I, B>, d: WidgetDefaults)
    ensures
        !style.has_frame_styles_spec() ==> {
            &&& style.bg is None
            &&& style.bg_gradient is None
            &&& style.border is None
            &&& style.frame_overlays_spec(d).border is Uniform
            &&& style.frame_overlays_spec(d).glow is None
            &&& style.corner_radius is None
            &&& style.padding is None
            &&& style.margin is None
            &&& style.background_image is None
        },
{
}

/// A frame decorates exactly as a widget in its base state does: the
/// border decoration and glow painted over a frame are the overlays of the
/// style resolved in the idle state over the inactive visuals, so border
/// gradient beats per-side edges beats the uniform border for frames too.
pub proof fn law_frame_overlays_are_base_state_overlays<'a, G, I: Copy, B: Copy>(
    style: SharedStyle<G, I, B>,
    d: WidgetDefaults,
    r: ResolvedStyle<'a, G, I, B>,
)
    requires
        style.resolves_to(PseudoState::idle(), d, r),
    ensures
        style.frame_overlays_spec(d) == r.overlays_spec(),
        *r.bg_gradient == style.bg_gradient,
{
}

/// The focused state mirrors the focus fields and falls back to the
/// inactive state: with no focus field set, the focused resolution is the
/// inactive one.
pub proof fn law_focused_falls_back_to_inactive<'a, G, I, B>(
    style: SharedStyle<G, I, B>,
    v: VisualsDefaults,
    per: PerStateStyle<'a, G, I, B>,
)
    requires
        per.resolved_from(style, v),
        style.focus_bg is None,
        style.focus_border is None,
        style.focus_text_color is None,
        style.focus_border_sides == SideStrokes::none_spec(),
        style.focus_bg_gradient is None,
        style.focus_inner_glow is None,
        style.focus_border_gradient is None,
    ensures
        per.focused == per.inactive,
{
}

/// A style resolves to one value only: two resolutions of the same style in
/// the same state over the same visuals are equal.
pub proof fn law_resolution_is_unique<'a, 'b, G, I, B>(
    style: SharedStyle<G, I, B>,
    state: PseudoState,
    d: WidgetDefaults,
    r1: ResolvedStyle<'a, G, I, B>,
    r2: ResolvedStyle<'b, G, I, B>,
)
    requires
        style.resolves_to(state, d, r1),
        style.resolves_to(state, d, r2),
    ensures
        r1.bg == r2.bg,
        r1.text_color == r2.text_color,
        r1.border == r2.border,
        r1.border_sides == r2.border_sides,
        r1.has_border_overrides == r2.has_border_overrides,
        r1.corner_radius == r2.corner_radius,
        r1.padding == r2.padding,
        r1.margin == r2.margin,
        r1.cursor_icon == r2.cursor_icon,
        *r1.bg_gradient == *r2.bg_gradient,
        r1.inner_glow == r2.inner_glow,
        r1.border_gradient == r2.border_gradient,
{
}

/// Resolving every state at once is resolving each state on its own:
/// inactive, hovered and pressed over their own visuals, focused over the
/// inactive visuals.
pub proof fn law_per_state_is_resolve_per_state<'a, G, I, B>(
    style: SharedStyle<G, I, B>,
    v: VisualsDefaults,
    per: PerStateStyle<'a, G, I, B>,
    inactive: ResolvedStyle<'a, G, I, B>,
    hovered: ResolvedStyle<'a, G, I, B>,
    active: ResolvedStyle<'a, G, I, B>,
    focused: ResolvedStyle<'a, G, I, B>,
)
    requires
        per.resolved_from(style, v),
        style.resolves_to(PseudoState::idle(), v.inactive, inactive),
        style.resolves_to(hovered_state(), v.hovered, hovered),
        style.resolves_to(active_state(), v.active, active),
        style.resolves_to(focused_state(), v.inactive, focused),
    ensures
        per.inactive == inactive,
        per.hovered == hovered,
        per.active == active,
        per.focused == focused,
{
}

/// A rendered widget with no interaction paints with the inactive
/// resolution; focus wins over every other interaction.
pub proof fn law_response_state_selection<'a, G, I, B>(per: PerStateStyle<'a, G, I, B>, r: PseudoState)
    ensures
        for_response_spec(per, PseudoState::idle()) == per.inactive,
        r.focused ==> for_response_spec(per, r) == per.focused,
        !r.focused && r.active ==> for_response_spec(per, r) == per.active,
{
}

/// Every edge selected implies some edge selected.
pub proof fn law_sides_all_implies_any(s: Sides)
    ensures
        s.is_all_spec() ==> s.any_spec(),
{
}

/// What a resolved state writes into its egui visuals slot: with a gradient
/// fill egui's fill (and weak fill) is transparent so the hand-painted
/// gradient shows, otherwise both are the resolved fill; the corner radius is
/// the shared one; egui draws the resolved uniform border unless a border
/// gradient or per-side edges take its place.
pub proof fn law_slot_paint_contents<'a, G, I, B>(r: ResolvedStyle<'a, G, I, B>, cr: CornerRadius)
    ensures
        ({
            let p = slot_paint_spec(r, cr);
            &&& p.weak_bg_fill == p.bg_fill
            &&& p.corner_radius == cr
            &&& r.bg_gradient is Some ==> p.bg_fill == (Color { r: 0, g: 0, b: 0, a: 0 })
            &&& r.bg_gradient is None ==> p.bg_fill == r.bg
            &&& r.border_gradient is None && !r.has_border_overrides ==> p.bg_stroke == Some(r.border)
            &&& (r.border_gradient is Some || r.has_border_overrides) ==> p.bg_stroke is None
        }),
{
}

/// What paints over a widget carries the resolved values: the border
/// gradient itself when set, else the resolved per-side edges when the state
/// has overrides, else nothing over egui's uniform stroke; and the resolved
/// inner glow.
pub proof fn law_overlays_contents<'a, G, I: Copy, B: Copy>(r: ResolvedStyle<'a, G, I, B>)
    ensures
        r.overlays_spec().glow == r.inner_glow,
        r.border_gradient matches Some(g) ==> r.overlays_spec().border == BorderOverlay::<B>::Gradient(g),
        r.border_gradient is None && r.has_border_overrides ==> r.overlays_spec().border
            == BorderOverlay::<B>::Sides(r.border_sides),
        r.border_gradient is None && !r.has_border_overrides ==> r.overlays_spec().border is Uniform,
{
}

/// Unset fields fall through to egui's visuals and never overwrite them: a
/// style with nothing set resolves, in every state, to egui's own fill,
/// border and text colour and corner radius, with no padding, margin,
/// cursor, per-side edge or decoration. Set geometry is kept as given.
pub proof fn law_unset_fields_fall_back_to_visuals<'a, G, I, B>(
    style: SharedStyle<G, I, B>,
    state: PseudoState,
    d: WidgetDefaults,
    r: ResolvedStyle<'a, G, I, B>,
)
    requires
        style.resolves_to(state, d, r),
    ensures
        style.corner_radius matches Some(c) ==> r.corner_radius == c,
        style.corner_radius is None ==> r.corner_radius == d.corner_radius,
        style.padding matches Some(m) ==> r.padding == m,
        style.padding is None ==> r.padding == (Margin { left: 0, right: 0, top: 0, bottom: 0 }),
        style.margin matches Some(m) ==> r.margin == m,
        style.margin is None ==> r.margin == (Margin { left: 0, right: 0, top: 0, bottom: 0 }),
        r.cursor_icon == style.cursor_icon,
        style.is_empty_spec() ==> {
            &&& r.bg == d.bg_fill
            &&& r.border == d.bg_stroke
            &&& r.text_color == d.text_color
            &&& r.corner_radius == d.corner_radius
            &&& !r.has_border_overrides
            &&& r.border_sides.top == d.bg_stroke && r.border_sides.right == d.bg_stroke
            &&& r.border_sides.bottom == d.bg_stroke && r.border_sides.left == d.bg_stroke
            &&& *r.bg_gradient is None && r.inner_glow is None && r.border_gradient is None
        },
{
}

/// The accent falls back to egui's selection fill and the hover accent to
/// the accent; corner radius, padding, margin and cursor are shared by every
/// state.
pub proof fn law_accent_and_shared_fields<'a, G, I, B>(
    style: SharedStyle<G, I, B>,
    v: VisualsDefaults,
    per: PerStateStyle<'a, G, I, B>,
)
    requires
        per.resolved_from(style, v),
    ensures
        style.accent matches Some(a) ==> per.accent == a,
        style.accent is None ==> per.accent == v.selection_bg_fill,
        style.hover_accent matches Some(h) ==> per.hover_accent == h,
        style.hover_accent is None ==> per.hover_accent == per.accent,
        per.corner_radius == per.inactive.corner_radius,
        per.padding == per.inactive.padding && per.padding == per.hovered.padding,
        per.margin == per.inactive.margin && per.margin == per.active.margin,
        per.cursor_icon == style.cursor_icon,
{
}

/// Every decoration family makes a container route through a frame, in
/// every state: gradient fills, inner glows and border gradients.
pub proof fn law_decorations_need_a_frame<G, I, B>(style: SharedStyle<G, I, B>, g: G, i: I, b: B)
    ensures
        (SharedStyle { bg_gradient: Some(g), ..style }).has_frame_styles_spec(),
        (SharedStyle { hover_bg_gradient: Some(g), ..style }).has_frame_styles_spec(),
        (SharedStyle { active_bg_gradient: Some(g), ..style }).has_frame_styles_spec(),
        (SharedStyle { focus_bg_gradient: Some(g), ..style }).has_frame_styles_spec(),
        (SharedStyle { inner_glow: Some(i), ..style }).has_frame_styles_spec(),
        (SharedStyle { hover_inner_glow: Some(i), ..style }).has_frame_styles_spec(),
        (SharedStyle { active_inner_glow: Some(i), ..style }).has_frame_styles_spec(),
        (SharedStyle { focus_inner_glow: Some(i), ..style }).has_frame_styles_spec(),
        (SharedStyle { border_gradient: Some(b), ..style }).has_frame_styles_spec(),
        (SharedStyle { hover_border_gradient: Some(b), ..style }).has_frame_styles_spec(),
        (SharedStyle { active_border_gradient: Some(b), ..style }).has_frame_styles_spec(),
        (SharedStyle { focus_border_gradient: Some(b), ..style }).has_frame_styles_spec(),
{
}

/// A hovered widget that is neither focused nor pressed paints with the
/// hovered resolution; a pressed, unfocused one with the pressed resolution.
pub proof fn law_hovered_response_uses_hovered<'a, G, I, B>(per: PerStateStyle<'a, G, I, B>, r: PseudoState)
    ensures
        r.hovered && !r.active && !r.focused ==> for_response_spec(per, r) == per.hovered,
        r.active && !r.focused ==> for_response_spec(per, r) == per.active,
        !r.hovered && !r.active && !r.focused ==> for_response_spec(per, r) == per.inactive,
{
}

/// Per-side inner-glow bands: one single-edge band for each selected edge
/// and no other, each edge once, in the order top, bottom, left, right.
pub proof fn law_glow_bands_cover_selected_edges(s: Sides)
    ensures
        ({
            let b = selected_bands(s);
            let count = (if s.top { 1int } else { 0 }) + (if s.bottom { 1int } else { 0 }) + (if s.left { 1int } else { 0 })
                + (if s.right { 1int } else { 0 });
            &&& b.len() == count
            &&& forall|i: int| 0 <= i < b.len() ==> {
                &&& (if b[i].top { 1int } else { 0 }) + (if b[i].right { 1int } else { 0 }) + (if b[i].bottom {
                    1int
                } else {
                    0
                }) + (if b[i].left { 1int } else { 0 }) == 1
                &&& (b[i].top ==> s.top) && (b[i].right ==> s.right) && (b[i].bottom ==> s.bottom) && (b[i].left
                    ==> s.left)
            }
            &&& forall|i: int, j: int| 0 <= i < j < b.len() ==> b[i] != b[j]
            &&& s.top ==> b[0].top
            &&& s.right ==> b[b.len() - 1].right
        }),
{
    let none = Sides { top: false, right: false, bottom: false, left: false };
    let t: Seq<Sides> = if s.top { seq![Sides { top: true, ..none }] } else { Seq::empty() };
    let bo: Seq<Sides> = if s.bottom { seq![Sides { bottom: true, ..none }] } else { Seq::empty() };
    let l: Seq<Sides> = if s.left { seq![Sides { left: true, ..none }] } else { Seq::empty() };
    let r: Seq<Sides> = if s.right { seq![Sides { right: true, ..none }] } else { Seq::empty() };
    let b = selected_bands(s);
    assert(b == t + bo + l + r);
    let x = t.len() as int;
    let y = x + bo.len();
    let z = y + l.len();
    assert forall|i: int| 0 <= i < b.len() implies {
        &&& (b[i].top <==> i < x)
        &&& (b[i].bottom <==> x <= i < y)
        &&& (b[i].left <==> y <= i < z)
        &&& (b[i].right <==> z <= i)
        &&& (b[i].top || b[i].bottom || b[i].left || b[i].right)
    } by {
        if i < x {
            assert(b[i] == t[i]);
        } else if i < y {
            assert(b[i] == bo[i - x]);
        } else if i < z {
            assert(b[i] == l[i - y]);
        } else {
            assert(b[i] == r[i - z]);
        }
    }
}

} // verus!
