use egui_styled::theme::WebPalette;
use egui_styled::{rgb, rgba, Color};

#[test]
fn rgb_is_opaque() {
    assert_eq!(rgb(1, 2, 3), Color { r: 1, g: 2, b: 3, a: 255 });
    assert_eq!(rgb(1, 2, 3).to_array(), egui::Color32::from_rgb(1, 2, 3).to_array());
}

#[test]
fn rgba_keeps_premultiplied_bytes() {
    assert_eq!(rgba(10, 20, 30, 40), Color { r: 10, g: 20, b: 30, a: 40 });
    assert_eq!(
        rgba(10, 20, 30, 40).to_array(),
        egui::Color32::from_rgba_premultiplied(10, 20, 30, 40).to_array()
    );
}

#[test]
fn with_alpha_replaces_alpha() {
    let red = Color::red();
    assert_eq!(red.with_alpha(255), red);
    assert_eq!(red.with_alpha(0), Color::transparent());
    let half = red.with_alpha(128);
    assert_eq!(half.a, 128);
    assert_eq!(half.to_array(), egui::Color32::from_rgba_unmultiplied(255, 0, 0, 128).to_array());
    assert_ne!(half.r, 255);
}

#[test]
fn with_alpha_keeps_a_translucent_colour() {
    let half = Color::from_rgb(200, 200, 200).with_alpha(128);
    assert_eq!(half.to_array(), egui::Color32::from_rgba_unmultiplied(200, 200, 200, 128).to_array());
    let opaque = half.with_alpha(255);
    assert_eq!(opaque.a, 255);
    for ch in [opaque.r, opaque.g, opaque.b] {
        assert!(ch.abs_diff(200) <= 2, "channel {ch} drifted from 200");
    }
    let quarter = half.with_alpha(64);
    assert_eq!(quarter.a, 64);
    let [r, _, _, _] = egui::Color32::from_rgba_premultiplied(half.r, half.g, half.b, half.a).to_srgba_unmultiplied();
    assert_eq!(quarter.to_array(), egui::Color32::from_rgba_unmultiplied(r, r, r, 64).to_array());
}

#[test]
fn named_colors_match_egui() {
    for (ours, theirs) in [
        (Color::transparent(), egui::Color32::TRANSPARENT),
        (Color::black(), egui::Color32::BLACK),
        (Color::white(), egui::Color32::WHITE),
        (Color::red(), egui::Color32::RED),
        (Color::green(), egui::Color32::GREEN),
        (Color::blue(), egui::Color32::BLUE),
        (Color::yellow(), egui::Color32::YELLOW),
    ] {
        assert_eq!(ours.to_array(), theirs.to_array());
    }
    assert_eq!(Color::from_gray(30).to_array(), egui::Color32::from_gray(30).to_array());
    assert_eq!(Color::from_black_alpha(7).to_array(), egui::Color32::from_black_alpha(7).to_array());
}

#[test]
fn web_palette_default_values() {
    let p = WebPalette::default();
    assert_eq!(p.bg_primary, Color::from_gray(30));
    assert_eq!(p.bg_secondary, Color::from_gray(40));
    assert_eq!(p.bg_surface, Color::from_gray(50));
    assert_eq!(p.bg_elevated, Color::from_gray(60));
    assert_eq!(p.fg_primary, Color::from_gray(230));
    assert_eq!(p.fg_secondary, Color::from_gray(180));
    assert_eq!(p.fg_muted, Color::from_gray(130));
    assert_eq!(p.fg_on_accent, Color::white());
    assert_eq!(p.accent, rgb(70, 120, 200));
    assert_eq!(p.accent_hover, rgb(90, 140, 220));
    assert_eq!(p.accent_active, rgb(55, 100, 180));
    assert_eq!(p.error, rgb(200, 80, 80));
    assert_eq!(p.warning, rgb(200, 160, 60));
    assert_eq!(p.success, rgb(80, 180, 110));
    assert_eq!(p.border, Color::from_gray(80));
    assert_eq!(p.border_focus, rgb(120, 160, 240));
}
