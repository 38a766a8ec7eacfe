use euphonica::display::{
    check_animation, from_render_blend_mode, icon_size_for_code, marquee_measure, runs_on_hover,
    scheme_on_toggle, star_icon_name, to_render_blend_mode, update_selection, update_stars,
    wrap_mode_layout, BlendMode, ColorScheme, IconSize, MarqueeAction, MarqueeWrapMode,
    RenderBlendMode, StarFill, ThemeChoice,
};
use euphonica::text_display::TextDisplayMode;
use euphonica::display::Rating;

#[test]
fn blend_mode_numbers_roundtrip() {
    for v in 0u32..16 {
        let m = BlendMode::try_from_u32(v).unwrap();
        assert_eq!(m.to_u32(), v);
    }
    assert!(BlendMode::try_from_u32(16).is_err());
    assert_eq!(BlendMode::default(), BlendMode::Default);
    assert_eq!(BlendMode::try_from_u32(6), Ok(BlendMode::Dodge));
}

#[test]
fn render_blend_modes() {
    assert_eq!(to_render_blend_mode(BlendMode::Dodge), RenderBlendMode::ColorDodge);
    assert_eq!(from_render_blend_mode(RenderBlendMode::ColorBurn), BlendMode::Burn);
    for v in 0u32..16 {
        let m = BlendMode::try_from_u32(v).unwrap();
        if m != BlendMode::Hue {
            assert_eq!(from_render_blend_mode(to_render_blend_mode(m)), m);
        }
    }
}

#[test]
fn wrap_modes_roundtrip() {
    for m in [MarqueeWrapMode::Scroll, MarqueeWrapMode::Ellipsis, MarqueeWrapMode::Wrap] {
        assert_eq!(MarqueeWrapMode::try_from_str(m.as_str()), Ok(m));
        assert_eq!(MarqueeWrapMode::try_from_u32(m.as_idx()), Ok(m));
    }
    assert_eq!(MarqueeWrapMode::try_from_str("ellipsis"), Ok(MarqueeWrapMode::Ellipsis));
    assert!(MarqueeWrapMode::try_from_str("marquee").is_err());
    assert!(MarqueeWrapMode::try_from_u32(3).is_err());
    assert_eq!(MarqueeWrapMode::default(), MarqueeWrapMode::Scroll);
    assert_eq!(MarqueeWrapMode::Scroll.as_idx(), 1);
    assert_eq!(wrap_mode_layout(MarqueeWrapMode::Wrap), (true, 3, true));
    assert_eq!(wrap_mode_layout(MarqueeWrapMode::Scroll), (false, 1, false));
    assert!(runs_on_hover(MarqueeWrapMode::Scroll));
    assert!(!runs_on_hover(MarqueeWrapMode::Wrap));
}

#[test]
fn marquee_animation_and_size() {
    assert_eq!(check_animation(true, 200, 100, false), MarqueeAction::Start);
    assert_eq!(check_animation(true, 200, 100, true), MarqueeAction::Keep);
    assert_eq!(check_animation(true, 50, 100, true), MarqueeAction::Reset);
    assert_eq!(check_animation(false, 200, 100, true), MarqueeAction::Reset);
    assert_eq!(marquee_measure(true, true, 80, (10, 20, -1, -1)), (10, 20, -1, -1));
    assert_eq!(marquee_measure(false, true, 80, (10, 20, -1, -1)), (80, 80, -1, -1));
    assert_eq!(marquee_measure(false, false, 8, (10, 20, 3, 4)), (10, 20, 3, 4));
}

#[test]
fn theme_selection() {
    assert_eq!(update_selection(ColorScheme::PreferDark), ThemeChoice::Dark);
    assert_eq!(update_selection(ColorScheme::ForceLight), ThemeChoice::Light);
    assert_eq!(update_selection(ColorScheme::Default), ThemeChoice::Follow);
    for c in [ThemeChoice::Follow, ThemeChoice::Light, ThemeChoice::Dark] {
        assert_eq!(update_selection(scheme_on_toggle(c)), c);
    }
}

#[test]
fn stars_for_ratings() {
    assert_eq!(update_stars(0), [StarFill::Empty; 5]);
    assert_eq!(
        update_stars(7),
        [StarFill::Full, StarFill::Full, StarFill::Full, StarFill::Half, StarFill::Empty]
    );
    assert_eq!(update_stars(10), [StarFill::Full; 5]);
    assert_eq!(
        update_stars(12),
        [StarFill::Full, StarFill::Full, StarFill::Full, StarFill::Full, StarFill::Empty]
    );
    assert_eq!(star_icon_name(StarFill::Half), "star-outline-half-left-symbolic");
    assert_eq!(icon_size_for_code(2), Some(IconSize::Large));
    assert_eq!(icon_size_for_code(3), None);
}

#[test]
fn text_display_modes() {
    assert_eq!(TextDisplayMode::from_u32(1), TextDisplayMode::Wrap);
    assert_eq!(TextDisplayMode::from_u32(9), TextDisplayMode::Ellipsis);
    assert_eq!(TextDisplayMode::Marquee.to_u32(), 2);
    assert_eq!(TextDisplayMode::default(), TextDisplayMode::Ellipsis);
}

#[test]
fn rating_widget() {

    let mut r = Rating { value: 0, preview_value: 6, editable: true };
    assert!(r.set_value(0).is_none());
    assert_eq!(
        r.set_value(3),
        Some([StarFill::Full, StarFill::Half, StarFill::Empty, StarFill::Empty, StarFill::Empty])
    );
    assert!(r.on_release());
    assert_eq!(r.value, 6);
    assert_eq!(r.on_leave(), [StarFill::Full, StarFill::Full, StarFill::Full, StarFill::Empty, StarFill::Empty]);
    let mut fixed = Rating { value: 2, preview_value: 9, editable: false };
    assert!(!fixed.on_release());
    assert_eq!(fixed.value, 2);
}
