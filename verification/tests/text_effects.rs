use egui::{vec2, Align2};
use egui_styled::{Color, GlowQuality, TextEffects, TextLayer, TextShadow};

/// Outline `(width, colour)`, glow `(colour, radius, intensity)`, scale `(factor, pivot)`.
type Fx = TextEffects<(f32, Color), (Color, f32, f32), (f32, Align2)>;

#[test]
fn text_effects_is_empty_by_default() {
    assert!(Fx::default().is_empty());
}

#[test]
fn text_effects_not_empty_after_shadow() {
    let mut fx = Fx::default();
    fx.shadows.push(TextShadow {
        offset: vec2(1.0, 1.0),
        color: Color::black(),
    });
    assert!(!fx.is_empty());
}

#[test]
fn text_effects_not_empty_after_glow() {
    let fx = Fx {
        glow: Some((Color::white(), 8.0, 0.5)),
        ..Default::default()
    };
    assert!(!fx.is_empty());
}

#[test]
fn text_effects_not_empty_after_scale() {
    let fx = Fx {
        scale: Some((1.5, Align2::CENTER_CENTER)),
        ..Default::default()
    };
    assert!(!fx.is_empty());
}

#[test]
fn glow_quality_default_values() {
    let q = GlowQuality::default();
    assert_eq!(q.samples, 64);
}

#[test]
fn text_effects_new_keeps_default_quality() {
    let fx = Fx::new();
    assert!(fx.is_empty());
    assert_eq!(fx.glow_quality.samples, 64);
}

#[test]
fn text_effects_quality_alone_is_not_an_effect() {
    let fx = Fx {
        glow_quality: GlowQuality { samples: 32 },
        ..Default::default()
    };
    assert!(fx.is_empty());
}

#[test]
fn push_shadow_appends_in_call_order() {
    let mut fx = Fx::new();
    fx.push_shadow(TextShadow { offset: vec2(-2.0, 0.0), color: Color::from_rgb(0, 220, 255) });
    fx.push_shadow(TextShadow { offset: vec2(2.0, 0.0), color: Color::from_rgb(255, 0, 200) });
    assert_eq!(fx.shadows.len(), 2);
    assert_eq!(fx.shadows[0].offset, vec2(-2.0, 0.0));
    assert_eq!(fx.shadows[1].color, Color::from_rgb(255, 0, 200));
    assert!(!fx.is_empty());
}

#[test]
fn layers_of_no_effects_is_just_the_text() {
    let fx = Fx::new();
    let l = fx.layers();
    assert_eq!(l.len(), 1);
    assert!(matches!(l[0], TextLayer::Main));
}

#[test]
fn layers_stack_glow_shadows_outline_text() {
    let mut fx = Fx::new();
    fx.outline = Some((1.5, Color::black()));
    fx.glow = Some((Color::white(), 12.0, 0.6));
    fx.push_shadow(TextShadow { offset: vec2(-1.5, 0.0), color: Color::blue() });
    fx.push_shadow(TextShadow { offset: vec2(1.5, 0.0), color: Color::red() });
    let l = fx.layers();
    assert_eq!(l.len(), 5);
    assert!(matches!(l[0], TextLayer::Glow((_, r, _)) if r == 12.0));
    assert!(matches!(l[1], TextLayer::Shadow(s) if s.color == Color::blue()));
    assert!(matches!(l[2], TextLayer::Shadow(s) if s.color == Color::red()));
    assert!(matches!(l[3], TextLayer::Outline((w, _)) if w == 1.5));
    assert!(matches!(l[4], TextLayer::Main));
}

#[test]
fn layers_ignore_scale() {
    let fx = Fx {
        scale: Some((1.4, Align2::CENTER_CENTER)),
        ..Default::default()
    };
    assert!(!fx.is_empty());
    assert_eq!(fx.layers().len(), 1);
}
