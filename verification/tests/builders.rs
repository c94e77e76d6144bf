use egui::{Stroke, Vec2};
use egui_styled::{Apply, BackgroundImageFit, Color, CornerRadius, Margin, Shadow, SharedStyle, Sides};

type Style = SharedStyle<(), (), ()>;

#[test]
fn all_shared_builders_compile() {
    let s = Stroke::new(1.0, egui::Color32::RED);
    let style = Style::new()
        .bg(Color::red())
        .hover_bg(Color::red())
        .active_bg(Color::red())
        .focus_bg(Color::red())
        .accent(Color::red())
        .hover_accent(Color::red())
        .text_color(Color::red())
        .hover_text_color(Color::red())
        .focus_text_color(Color::red())
        .border(s)
        .hover_border(s)
        .focus_border(s)
        .border_top(s)
        .border_right(s)
        .border_bottom(s)
        .border_left(s)
        .corner_radius(CornerRadius::same(4))
        .padding(Margin::same(8))
        .margin_top(4)
        .margin_bottom(4)
        .margin_left(4)
        .margin_right(4)
        .full_width()
        .full_height()
        .cursor(egui::CursorIcon::Default)
        .visible(true)
        .shadow(Shadow { offset: Vec2::ZERO, stroke: s, fill: None })
        .shadow(Shadow { offset: Vec2::ZERO, stroke: Stroke::NONE, fill: Some(Color::black()) });
    assert_eq!(style.bg, Some(Color::red()));
    assert_eq!(style.margin, Some(Margin { left: 4, right: 4, top: 4, bottom: 4 }));
    assert_eq!(style.shadows.len(), 2);
}

#[test]
fn margin_side_builder_keeps_other_sides() {
    let style = Style::new().margin_top(3);
    assert_eq!(style.margin, Some(Margin { left: 0, right: 0, top: 3, bottom: 0 }));
    let style = style.margin_left(-2).margin_top(5);
    assert_eq!(style.margin, Some(Margin { left: -2, right: 0, top: 5, bottom: 0 }));
}

#[test]
fn border_x_and_y_set_both_sides() {
    let s = Stroke::new(2.0, egui::Color32::BLUE);
    let style = Style::new().border_x(s);
    assert_eq!(style.border_sides.left, Some(s));
    assert_eq!(style.border_sides.right, Some(s));
    assert!(style.border_sides.top.is_none());
    let style = Style::new().hover_border_y(s).focus_border_left(s);
    assert_eq!(style.hover_border_sides.top, Some(s));
    assert_eq!(style.hover_border_sides.bottom, Some(s));
    assert!(style.hover_border_sides.left.is_none());
    assert_eq!(style.focus_border_sides.left, Some(s));
}

#[test]
fn shadows_append_in_call_order() {
    let a = Shadow { offset: Vec2::new(1.0, 0.0), stroke: Stroke::NONE, fill: Some(Color::red()) };
    let b = Shadow { offset: Vec2::new(0.0, 2.0), stroke: Stroke::NONE, fill: Some(Color::blue()) };
    let style = Style::new().shadow(a).shadow(b).bg(Color::green());
    assert_eq!(style.shadows.len(), 2);
    assert_eq!(style.shadows[0].fill, Some(Color::red()));
    assert_eq!(style.shadows[1].fill, Some(Color::blue()));
    assert_eq!(style.bg, Some(Color::green()));
}

#[test]
fn background_image_builders() {
    let style = Style::new()
        .background_image(egui::Image::from_bytes("bytes://test", vec![]))
        .background_image_fit(BackgroundImageFit::Cover)
        .background_image_tint(Color::red())
        .reveal_with_background_image();
    assert!(style.background_image.is_some());
    assert_eq!(style.background_image_fit, BackgroundImageFit::Cover);
    assert_eq!(style.background_image_tint, Some(Color::red()));
    assert!(style.background_image_fade_content);
}

#[test]
fn visibility_only_hidden_when_false() {
    assert!(Style::new().is_visible());
    assert!(Style::new().visible(true).is_visible());
    assert!(!Style::new().visible(false).is_visible());
}

#[test]
fn apply_runs_the_style_function() {
    let primary = |s: Style| s.bg(Color::blue()).text_color(Color::white());
    let style = Style::new().apply(primary).bg(Color::red());
    assert_eq!(style.bg, Some(Color::red()));
    assert_eq!(style.text_color, Some(Color::white()));
}

#[test]
fn sides_selections() {
    assert!(Sides::all().is_all());
    assert!(Sides::all().any());
    assert!(!Sides::y().is_all());
    assert!(Sides::y().any());
    assert!(Sides::x().left && Sides::x().right && !Sides::x().top);
    let none = Sides { top: false, right: false, bottom: false, left: false };
    assert!(!none.any());
    assert!(Sides::top_only().top && !Sides::top_only().bottom);
    assert!(Sides::bottom_only().bottom && Sides::left_only().left && Sides::right_only().right);
}

#[test]
fn margin_nonzero_and_corner_defaults() {
    assert!(!Margin::zero().is_nonzero());
    assert!(Margin { left: 0, right: 0, top: 0, bottom: -1 }.is_nonzero());
    assert_eq!(CornerRadius::default(), CornerRadius::same(0));
    assert_eq!(Margin::default(), Margin::zero());
}
