use egui::Stroke;
use egui_styled::style::per_state::VisualsDefaults;
use egui_styled::style::resolve::WidgetDefaults;
use egui_styled::{BackgroundImageFit, BgGradient, Color, CornerRadius, Margin, PseudoState, SharedStyle, SideStrokes};

type Glow = (f32, Color);
type BorderGrad = (f32, Color, Color);
type Style = SharedStyle<BgGradient, Glow, BorderGrad>;

fn col(c: egui::Color32) -> Color {
    let [r, g, b, a] = c.to_array();
    Color { r, g, b, a }
}

fn widget_defaults(wv: &egui::style::WidgetVisuals) -> WidgetDefaults {
    WidgetDefaults {
        bg_fill: col(wv.bg_fill),
        bg_stroke: wv.bg_stroke,
        text_color: col(wv.text_color()),
        corner_radius: CornerRadius {
            nw: wv.corner_radius.nw,
            ne: wv.corner_radius.ne,
            sw: wv.corner_radius.sw,
            se: wv.corner_radius.se,
        },
    }
}

fn default_visuals() -> WidgetDefaults {
    widget_defaults(&egui::Visuals::default().widgets.inactive)
}

fn visuals_defaults(v: &egui::Visuals) -> VisualsDefaults {
    VisualsDefaults {
        inactive: widget_defaults(&v.widgets.inactive),
        hovered: widget_defaults(&v.widgets.hovered),
        active: widget_defaults(&v.widgets.active),
        selection_bg_fill: col(v.selection.bg_fill),
    }
}

fn style_with_all_bgs() -> Style {
    SharedStyle {
        bg: Some(Color::red()),
        hover_bg: Some(Color::green()),
        active_bg: Some(Color::blue()),
        focus_bg: Some(Color::yellow()),
        ..Default::default()
    }
}

#[test]
fn bg_active_beats_hovered_and_focused() {
    let style = style_with_all_bgs();
    let state = PseudoState { hovered: true, active: true, focused: true };
    let resolved = style.resolve(state, &default_visuals());
    assert_eq!(resolved.bg, Color::blue());
}

#[test]
fn bg_hovered_beats_focused() {
    let style = style_with_all_bgs();
    let state = PseudoState { hovered: true, active: false, focused: true };
    let resolved = style.resolve(state, &default_visuals());
    assert_eq!(resolved.bg, Color::green());
}

#[test]
fn bg_focused_used_when_only_focused() {
    let style = style_with_all_bgs();
    let state = PseudoState { hovered: false, active: false, focused: true };
    let resolved = style.resolve(state, &default_visuals());
    assert_eq!(resolved.bg, Color::yellow());
}

#[test]
fn bg_base_used_when_no_pseudo_state() {
    let style = style_with_all_bgs();
    let resolved = style.resolve(PseudoState::default(), &default_visuals());
    assert_eq!(resolved.bg, Color::red());
}

#[test]
fn falls_back_to_default_visuals_when_unset() {
    let style = Style::default();
    let visuals = default_visuals();
    let resolved = style.resolve(PseudoState::default(), &visuals);
    assert_eq!(resolved.bg, visuals.bg_fill);
    assert_eq!(resolved.border, visuals.bg_stroke);
    assert_eq!(resolved.corner_radius, visuals.corner_radius);
    assert_eq!(resolved.text_color, visuals.text_color);
}

#[test]
fn focus_text_color_beats_hover_and_not_press() {
    let style: Style = SharedStyle::new()
        .text_color(Color::red())
        .hover_text_color(Color::green())
        .focus_text_color(Color::blue());
    let visuals = default_visuals();
    let both = PseudoState { hovered: true, active: false, focused: true };
    assert_eq!(style.resolve(both, &visuals).text_color, Color::blue());
    let hovered = PseudoState { hovered: true, active: true, focused: false };
    assert_eq!(style.resolve(hovered, &visuals).text_color, Color::green());
    let pressed = PseudoState { hovered: false, active: true, focused: false };
    assert_eq!(style.resolve(pressed, &visuals).text_color, Color::red());
    let per = style.resolve_per_state(&visuals_defaults(&egui::Visuals::default()));
    assert_eq!(per.focused.text_color, Color::blue());
    assert_eq!(per.inactive.text_color, Color::red());
}

#[test]
fn hover_text_color_only_applies_when_hovered() {
    let style: Style = SharedStyle {
        text_color: Some(Color::red()),
        hover_text_color: Some(Color::green()),
        ..Default::default()
    };
    let visuals = default_visuals();
    let active = PseudoState { hovered: false, active: true, focused: false };
    assert_eq!(style.resolve(active, &visuals).text_color, Color::red());
    let focused = PseudoState { hovered: false, active: false, focused: true };
    assert_eq!(style.resolve(focused, &visuals).text_color, Color::red());
    let hovered = PseudoState { hovered: true, active: false, focused: false };
    assert_eq!(style.resolve(hovered, &visuals).text_color, Color::green());
}

#[test]
fn border_focused_beats_hovered() {
    let hover = Stroke::new(1.0, egui::Color32::GREEN);
    let focus = Stroke::new(2.0, egui::Color32::YELLOW);
    let style: Style = SharedStyle { hover_border: Some(hover), focus_border: Some(focus), ..Default::default() };
    let state = PseudoState { hovered: true, active: false, focused: true };
    let resolved = style.resolve(state, &default_visuals());
    assert_eq!(resolved.border, focus);
}

#[test]
fn side_override_sets_only_that_side() {
    let left = Stroke::new(3.0, egui::Color32::RED);
    let style: Style = SharedStyle {
        border_sides: SideStrokes { left: Some(left), ..Default::default() },
        ..Default::default()
    };
    let visuals = default_visuals();
    let resolved = style.resolve(PseudoState::default(), &visuals);
    assert!(resolved.has_border_overrides);
    assert_eq!(resolved.border_sides.left, left);
    assert_eq!(resolved.border_sides.top, visuals.bg_stroke);
    assert_eq!(resolved.border_sides.right, visuals.bg_stroke);
    assert_eq!(resolved.border_sides.bottom, visuals.bg_stroke);
}

#[test]
fn side_override_falls_back_to_uniform_border() {
    let uniform = Stroke::new(1.0, egui::Color32::GRAY);
    let left = Stroke::new(3.0, egui::Color32::RED);
    let style: Style = SharedStyle {
        border: Some(uniform),
        border_sides: SideStrokes { left: Some(left), ..Default::default() },
        ..Default::default()
    };
    let resolved = style.resolve(PseudoState::default(), &default_visuals());
    assert_eq!(resolved.border_sides.left, left);
    assert_eq!(resolved.border_sides.top, uniform);
    assert_eq!(resolved.border_sides.right, uniform);
    assert_eq!(resolved.border_sides.bottom, uniform);
    assert_eq!(resolved.border, uniform);
}

#[test]
fn no_side_override_means_no_overrides_flag() {
    let uniform = Stroke::new(1.0, egui::Color32::GRAY);
    let style: Style = SharedStyle { border: Some(uniform), ..Default::default() };
    let resolved = style.resolve(PseudoState::default(), &default_visuals());
    assert!(!resolved.has_border_overrides);
    assert_eq!(resolved.border, uniform);
}

#[test]
fn focus_side_override_beats_base() {
    let base_left = Stroke::new(1.0, egui::Color32::GRAY);
    let focus_left = Stroke::new(2.0, egui::Color32::YELLOW);
    let style: Style = SharedStyle {
        border_sides: SideStrokes { left: Some(base_left), ..Default::default() },
        focus_border_sides: SideStrokes { left: Some(focus_left), ..Default::default() },
        ..Default::default()
    };
    let focused = PseudoState { hovered: false, active: false, focused: true };
    assert_eq!(style.resolve(focused, &default_visuals()).border_sides.left, focus_left);
    assert_eq!(style.resolve(PseudoState::default(), &default_visuals()).border_sides.left, base_left);
}

#[test]
fn has_frame_styles_empty() {
    assert!(!Style::default().has_frame_styles());
}

#[test]
fn has_frame_styles_each_trigger() {
    let stroke = Stroke::new(1.0, egui::Color32::RED);
    let triggers: Vec<(&str, Style)> = vec![
        ("bg", SharedStyle { bg: Some(Color::red()), ..Default::default() }),
        ("hover_bg", SharedStyle { hover_bg: Some(Color::red()), ..Default::default() }),
        ("active_bg", SharedStyle { active_bg: Some(Color::red()), ..Default::default() }),
        ("focus_bg", SharedStyle { focus_bg: Some(Color::red()), ..Default::default() }),
        ("border", SharedStyle { border: Some(stroke), ..Default::default() }),
        ("hover_border", SharedStyle { hover_border: Some(stroke), ..Default::default() }),
        ("focus_border", SharedStyle { focus_border: Some(stroke), ..Default::default() }),
        ("padding", SharedStyle { padding: Some(Margin::same(4)), ..Default::default() }),
        ("corner_radius", SharedStyle { corner_radius: Some(CornerRadius::same(4)), ..Default::default() }),
        ("margin", SharedStyle { margin: Some(Margin::same(4)), ..Default::default() }),
        (
            "border_sides",
            SharedStyle { border_sides: SideStrokes { left: Some(stroke), ..Default::default() }, ..Default::default() },
        ),
    ];
    for (name, style) in triggers {
        assert!(style.has_frame_styles(), "{name} did not trigger has_frame_styles");
    }
}

#[test]
fn has_frame_styles_ignores_non_frame_props() {
    let style: Style = SharedStyle { text_color: Some(Color::red()), full_width: true, ..Default::default() };
    assert!(!style.has_frame_styles());
}

#[test]
fn resolve_per_state_each_variant_independent() {
    let style: Style = SharedStyle {
        bg: Some(Color::red()),
        hover_bg: Some(Color::green()),
        active_bg: Some(Color::blue()),
        focus_bg: Some(Color::yellow()),
        accent: Some(Color::white()),
        ..Default::default()
    };
    let vis = visuals_defaults(&egui::Visuals::default());
    let per = style.resolve_per_state(&vis);
    assert_eq!(per.inactive.bg, Color::red());
    assert_eq!(per.hovered.bg, Color::green());
    assert_eq!(per.active.bg, Color::blue());
    assert_eq!(per.focused.bg, Color::yellow());
    assert_eq!(per.accent, Color::white());
}

#[test]
fn resolve_per_state_accent_falls_back_to_selection_bg_fill() {
    let style = Style::default();
    let v = egui::Visuals::default();
    let per = style.resolve_per_state(&visuals_defaults(&v));
    assert_eq!(per.accent, col(v.selection.bg_fill));
}

#[test]
fn background_image_fit_default_is_stretch() {
    assert_eq!(BackgroundImageFit::default(), BackgroundImageFit::Stretch);
}

#[test]
fn has_frame_styles_triggered_by_background_image() {
    let style: Style = SharedStyle {
        background_image: Some(egui::Image::from_bytes("bytes://test", vec![])),
        ..Default::default()
    };
    assert!(style.has_frame_styles());
}

fn style_with_all_gradients() -> Style {
    SharedStyle {
        bg_gradient: Some(BgGradient::vertical(Color::red(), Color::blue())),
        hover_bg_gradient: Some(BgGradient::vertical(Color::green(), Color::blue())),
        active_bg_gradient: Some(BgGradient::vertical(Color::yellow(), Color::blue())),
        focus_bg_gradient: Some(BgGradient::vertical(Color::white(), Color::blue())),
        ..Default::default()
    }
}

#[test]
fn bg_gradient_active_beats_hovered_and_focused() {
    let style = style_with_all_gradients();
    let resolved = style.resolve(PseudoState { hovered: true, active: true, focused: true }, &default_visuals());
    assert_eq!(*resolved.bg_gradient, Some(BgGradient::vertical(Color::yellow(), Color::blue())));
}

#[test]
fn bg_gradient_hover_beats_focused() {
    let style = style_with_all_gradients();
    let resolved = style.resolve(PseudoState { hovered: true, active: false, focused: true }, &default_visuals());
    assert_eq!(*resolved.bg_gradient, Some(BgGradient::vertical(Color::green(), Color::blue())));
}

#[test]
fn bg_gradient_focus_only() {
    let style = style_with_all_gradients();
    let resolved = style.resolve(PseudoState { hovered: false, active: false, focused: true }, &default_visuals());
    assert_eq!(*resolved.bg_gradient, Some(BgGradient::vertical(Color::white(), Color::blue())));
}

#[test]
fn bg_gradient_falls_back_to_base() {
    let style = style_with_all_gradients();
    let resolved = style.resolve(PseudoState::default(), &default_visuals());
    assert_eq!(*resolved.bg_gradient, Some(BgGradient::vertical(Color::red(), Color::blue())));
}

fn style_with_all_glows() -> Style {
    SharedStyle {
        inner_glow: Some((4.0, Color::red())),
        hover_inner_glow: Some((8.0, Color::green())),
        active_inner_glow: Some((12.0, Color::yellow())),
        focus_inner_glow: Some((6.0, Color::white())),
        ..Default::default()
    }
}

#[test]
fn inner_glow_active_beats_hovered_and_focused() {
    let style = style_with_all_glows();
    let resolved = style.resolve(PseudoState { hovered: true, active: true, focused: true }, &default_visuals());
    assert_eq!(resolved.inner_glow, Some((12.0, Color::yellow())));
}

#[test]
fn inner_glow_hover_beats_focused() {
    let style = style_with_all_glows();
    let resolved = style.resolve(PseudoState { hovered: true, active: false, focused: true }, &default_visuals());
    assert_eq!(resolved.inner_glow, Some((8.0, Color::green())));
}

#[test]
fn inner_glow_falls_back_to_base() {
    let style = style_with_all_glows();
    let resolved = style.resolve(PseudoState::default(), &default_visuals());
    assert_eq!(resolved.inner_glow, Some((4.0, Color::red())));
}

fn style_with_all_border_gradients() -> Style {
    SharedStyle {
        border_gradient: Some((2.0, Color::red(), Color::blue())),
        hover_border_gradient: Some((3.0, Color::green(), Color::blue())),
        active_border_gradient: Some((4.0, Color::yellow(), Color::blue())),
        focus_border_gradient: Some((2.5, Color::white(), Color::blue())),
        ..Default::default()
    }
}

#[test]
fn border_gradient_active_beats_hovered_and_focused() {
    let style = style_with_all_border_gradients();
    let resolved = style.resolve(PseudoState { hovered: true, active: true, focused: true }, &default_visuals());
    assert_eq!(resolved.border_gradient, Some((4.0, Color::yellow(), Color::blue())));
}

#[test]
fn border_gradient_falls_back_to_base() {
    let style = style_with_all_border_gradients();
    let resolved = style.resolve(PseudoState::default(), &default_visuals());
    assert_eq!(resolved.border_gradient, Some((2.0, Color::red(), Color::blue())));
}

#[test]
fn has_frame_styles_triggers_for_gradient_fields() {
    let g = BgGradient::vertical(Color::red(), Color::blue());
    let styles: Vec<Style> = vec![
        SharedStyle { bg_gradient: Some(g), ..Default::default() },
        SharedStyle { hover_bg_gradient: Some(g), ..Default::default() },
        SharedStyle { inner_glow: Some((4.0, Color::red())), ..Default::default() },
        SharedStyle { hover_inner_glow: Some((4.0, Color::red())), ..Default::default() },
        SharedStyle { border_gradient: Some((2.0, Color::red(), Color::blue())), ..Default::default() },
        SharedStyle { hover_border_gradient: Some((2.0, Color::red(), Color::blue())), ..Default::default() },
    ];
    for style in styles {
        assert!(style.has_frame_styles());
    }
}

#[test]
fn apply_to_visuals_suppresses_fill_when_bg_gradient() {
    let style: Style = SharedStyle {
        bg_gradient: Some(BgGradient::vertical(Color::red(), Color::blue())),
        ..Default::default()
    };
    let per = style.resolve_per_state(&visuals_defaults(&egui::Visuals::default()));
    let patch = Style::apply_to_visuals(&per, PseudoState::default());
    assert_eq!(patch.inactive.bg_fill, Color::transparent());
    assert_eq!(patch.inactive.weak_bg_fill, Color::transparent());
}

#[test]
fn apply_to_visuals_suppresses_stroke_when_border_gradient() {
    let style: Style = SharedStyle { border_gradient: Some((2.0, Color::red(), Color::blue())), ..Default::default() };
    let per = style.resolve_per_state(&visuals_defaults(&egui::Visuals::default()));
    let patch = Style::apply_to_visuals(&per, PseudoState::default());
    assert!(patch.inactive.bg_stroke.is_none());
}

#[test]
fn bg_gradient_constructors() {
    let v = BgGradient::vertical(Color::red(), Color::blue());
    assert_eq!(v.top_left, Color::red());
    assert_eq!(v.top_right, Color::red());
    assert_eq!(v.bottom_left, Color::blue());
    assert_eq!(v.bottom_right, Color::blue());
    let h = BgGradient::horizontal(Color::red(), Color::blue());
    assert_eq!(h.top_left, Color::red());
    assert_eq!(h.bottom_left, Color::red());
    assert_eq!(h.top_right, Color::blue());
    assert_eq!(h.bottom_right, Color::blue());
}
