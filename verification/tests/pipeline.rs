//! End-to-end tests of the rendering pipeline, run against a small
//! fixed-pitch test font: every glyph is a 400x700-unit box on a 1000-unit
//! em square with ascender 800, descender -200 and advance 600, so widths
//! and the fitted scales are exactly predictable.

use battery_tray::cache::IconCache;
use battery_tray::icon::{BatteryIconGenerator, IconError};

/// A minimal TrueType font: glyphs for the decimal digits, '*', '^' and '_',
/// each a filled box with a horizontal advance of 600 font units.
fn test_font() -> Vec<u8> {
    vec![
        0x00, 0x01, 0x00, 0x00, 0x00, 0x08, 0x00, 0x80, 0x00, 0x03, 0x00, 0x00, 0x63, 0x6d, 0x61, 0x70,
        0x00, 0x56, 0x00, 0xd3, 0x00, 0x00, 0x00, 0x8c, 0x00, 0x00, 0x00, 0x3c, 0x67, 0x6c, 0x79, 0x66,
        0x41, 0x20, 0x43, 0xd8, 0x00, 0x00, 0x00, 0xc8, 0x00, 0x00, 0x01, 0xba, 0x68, 0x65, 0x61, 0x64,
        0x61, 0x6a, 0x43, 0xa1, 0x00, 0x00, 0x02, 0x84, 0x00, 0x00, 0x00, 0x36, 0x68, 0x68, 0x65, 0x61,
        0x05, 0x7a, 0x02, 0x03, 0x00, 0x00, 0x02, 0xbc, 0x00, 0x00, 0x00, 0x24, 0x68, 0x6d, 0x74, 0x78,
        0x20, 0xd0, 0x05, 0x78, 0x00, 0x00, 0x02, 0xe0, 0x00, 0x00, 0x00, 0x38, 0x6c, 0x6f, 0x63, 0x61,
        0x03, 0x41, 0x02, 0xca, 0x00, 0x00, 0x03, 0x18, 0x00, 0x00, 0x00, 0x1e, 0x6d, 0x61, 0x78, 0x70,
        0x00, 0x10, 0x00, 0x06, 0x00, 0x00, 0x03, 0x38, 0x00, 0x00, 0x00, 0x20, 0x70, 0x6f, 0x73, 0x74,
        0xff, 0x9f, 0x00, 0x33, 0x00, 0x00, 0x03, 0x58, 0x00, 0x00, 0x00, 0x20, 0x00, 0x00, 0x00, 0x01,
        0x00, 0x03, 0x00, 0x01, 0x00, 0x00, 0x00, 0x0c, 0x00, 0x04, 0x00, 0x30, 0x00, 0x00, 0x00, 0x08,
        0x00, 0x08, 0x00, 0x02, 0x00, 0x00, 0x00, 0x2a, 0x00, 0x39, 0x00, 0x5f, 0xff, 0xff, 0x00, 0x00,
        0x00, 0x2a, 0x00, 0x30, 0x00, 0x5e, 0xff, 0xff, 0xff, 0xd7, 0xff, 0xd2, 0xff, 0xae, 0x00, 0x01,
        0x00, 0x00, 0x00, 0x00, 0x00, 0x00, 0x00, 0x00, 0x00, 0x01, 0x00, 0x64, 0x00, 0x00, 0x01, 0xf4,
        0x02, 0xbc, 0x00, 0x03, 0x00, 0x00, 0x01, 0x01, 0x01, 0x01, 0x00, 0x64, 0x01, 0x90, 0x00, 0x00,
        0xfe, 0x70, 0x00, 0x00, 0x00, 0x00, 0x02, 0xbc, 0x00, 0x00, 0x00, 0x01, 0x00, 0x64, 0x00, 0x00,
        0x01, 0xf4, 0x02, 0xbc, 0x00, 0x03, 0x00, 0x00, 0x01, 0x01, 0x01, 0x01, 0x00, 0x64, 0x01, 0x90,
        0x00, 0x00, 0xfe, 0x70, 0x00, 0x00, 0x00, 0x00, 0x02, 0xbc, 0x00, 0x00, 0x00, 0x01, 0x00, 0x64,
        0x00, 0x00, 0x01, 0xf4, 0x02, 0xbc, 0x00, 0x03, 0x00, 0x00, 0x01, 0x01, 0x01, 0x01, 0x00, 0x64,
        0x01, 0x90, 0x00, 0x00, 0xfe, 0x70, 0x00, 0x00, 0x00, 0x00, 0x02, 0xbc, 0x00, 0x00, 0x00, 0x01,
        0x00, 0x64, 0x00, 0x00, 0x01, 0xf4, 0x02, 0xbc, 0x00, 0x03, 0x00, 0x00, 0x01, 0x01, 0x01, 0x01,
        0x00, 0x64, 0x01, 0x90, 0x00, 0x00, 0xfe, 0x70, 0x00, 0x00, 0x00, 0x00, 0x02, 0xbc, 0x00, 0x00,
        0x00, 0x01, 0x00, 0x64, 0x00, 0x00, 0x01, 0xf4, 0x02, 0xbc, 0x00, 0x03, 0x00, 0x00, 0x01, 0x01,
        0x01, 0x01, 0x00, 0x64, 0x01, 0x90, 0x00, 0x00, 0xfe, 0x70, 0x00, 0x00, 0x00, 0x00, 0x02, 0xbc,
        0x00, 0x00, 0x00, 0x01, 0x00, 0x64, 0x00, 0x00, 0x01, 0xf4, 0x02, 0xbc, 0x00, 0x03, 0x00, 0x00,
        0x01, 0x01, 0x01, 0x01, 0x00, 0x64, 0x01, 0x90, 0x00, 0x00, 0xfe, 0x70, 0x00, 0x00, 0x00, 0x00,
        0x02, 0xbc, 0x00, 0x00, 0x00, 0x01, 0x00, 0x64, 0x00, 0x00, 0x01, 0xf4, 0x02, 0xbc, 0x00, 0x03,
        0x00, 0x00, 0x01, 0x01, 0x01, 0x01, 0x00, 0x64, 0x01, 0x90, 0x00, 0x00, 0xfe, 0x70, 0x00, 0x00,
        0x00, 0x00, 0x02, 0xbc, 0x00, 0x00, 0x00, 0x01, 0x00, 0x64, 0x00, 0x00, 0x01, 0xf4, 0x02, 0xbc,
        0x00, 0x03, 0x00, 0x00, 0x01, 0x01, 0x01, 0x01, 0x00, 0x64, 0x01, 0x90, 0x00, 0x00, 0xfe, 0x70,
        0x00, 0x00, 0x00, 0x00, 0x02, 0xbc, 0x00, 0x00, 0x00, 0x01, 0x00, 0x64, 0x00, 0x00, 0x01, 0xf4,
        0x02, 0xbc, 0x00, 0x03, 0x00, 0x00, 0x01, 0x01, 0x01, 0x01, 0x00, 0x64, 0x01, 0x90, 0x00, 0x00,
        0xfe, 0x70, 0x00, 0x00, 0x00, 0x00, 0x02, 0xbc, 0x00, 0x00, 0x00, 0x01, 0x00, 0x64, 0x00, 0x00,
        0x01, 0xf4, 0x02, 0xbc, 0x00, 0x03, 0x00, 0x00, 0x01, 0x01, 0x01, 0x01, 0x00, 0x64, 0x01, 0x90,
        0x00, 0x00, 0xfe, 0x70, 0x00, 0x00, 0x00, 0x00, 0x02, 0xbc, 0x00, 0x00, 0x00, 0x01, 0x00, 0x64,
        0x00, 0x00, 0x01, 0xf4, 0x02, 0xbc, 0x00, 0x03, 0x00, 0x00, 0x01, 0x01, 0x01, 0x01, 0x00, 0x64,
        0x01, 0x90, 0x00, 0x00, 0xfe, 0x70, 0x00, 0x00, 0x00, 0x00, 0x02, 0xbc, 0x00, 0x00, 0x00, 0x01,
        0x00, 0x64, 0x00, 0x00, 0x01, 0xf4, 0x02, 0xbc, 0x00, 0x03, 0x00, 0x00, 0x01, 0x01, 0x01, 0x01,
        0x00, 0x64, 0x01, 0x90, 0x00, 0x00, 0xfe, 0x70, 0x00, 0x00, 0x00, 0x00, 0x02, 0xbc, 0x00, 0x00,
        0x00, 0x01, 0x00, 0x64, 0x00, 0x00, 0x01, 0xf4, 0x02, 0xbc, 0x00, 0x03, 0x00, 0x00, 0x01, 0x01,
        0x01, 0x01, 0x00, 0x64, 0x01, 0x90, 0x00, 0x00, 0xfe, 0x70, 0x00, 0x00, 0x00, 0x00, 0x02, 0xbc,
        0x00, 0x00, 0x00, 0x00, 0x00, 0x01, 0x00, 0x00, 0x00, 0x00, 0x00, 0x00, 0x00, 0x00, 0x00, 0x00,
        0x5f, 0x0f, 0x3c, 0xf5, 0x00, 0x00, 0x03, 0xe8, 0x00, 0x00, 0x00, 0x00, 0x00, 0x00, 0x00, 0x00,
        0x00, 0x00, 0x00, 0x00, 0x00, 0x00, 0x00, 0x00, 0x00, 0x64, 0x00, 0x00, 0x01, 0xf4, 0x02, 0xbc,
        0x00, 0x00, 0x00, 0x08, 0x00, 0x02, 0x00, 0x00, 0x00, 0x00, 0x00, 0x00, 0x00, 0x01, 0x00, 0x00,
        0x03, 0x20, 0xff, 0x38, 0x00, 0x00, 0x02, 0x58, 0x00, 0x64, 0x00, 0x64, 0x01, 0xf4, 0x00, 0x01,
        0x00, 0x00, 0x00, 0x00, 0x00, 0x00, 0x00, 0x00, 0x00, 0x00, 0x00, 0x00, 0x00, 0x00, 0x00, 0x0e,
        0x02, 0x58, 0x00, 0x64, 0x02, 0x58, 0x00, 0x64, 0x02, 0x58, 0x00, 0x64, 0x02, 0x58, 0x00, 0x64,
        0x02, 0x58, 0x00, 0x64, 0x02, 0x58, 0x00, 0x64, 0x02, 0x58, 0x00, 0x64, 0x02, 0x58, 0x00, 0x64,
        0x02, 0x58, 0x00, 0x64, 0x02, 0x58, 0x00, 0x64, 0x02, 0x58, 0x00, 0x64, 0x02, 0x58, 0x00, 0x64,
        0x02, 0x58, 0x00, 0x64, 0x02, 0x58, 0x00, 0x64, 0x00, 0x00, 0x00, 0x00, 0x00, 0x11, 0x00, 0x22,
        0x00, 0x33, 0x00, 0x44, 0x00, 0x55, 0x00, 0x66, 0x00, 0x77, 0x00, 0x88, 0x00, 0x99, 0x00, 0xaa,
        0x00, 0xbb, 0x00, 0xcc, 0x00, 0xdd, 0x00, 0x00, 0x00, 0x01, 0x00, 0x00, 0x00, 0x0e, 0x00, 0x04,
        0x00, 0x01, 0x00, 0x00, 0x00, 0x00, 0x00, 0x02, 0x00, 0x00, 0x00, 0x00, 0x00, 0x00, 0x00, 0x00,
        0x00, 0x00, 0x00, 0x00, 0x00, 0x00, 0x00, 0x00, 0x00, 0x03, 0x00, 0x00, 0x00, 0x00, 0x00, 0x00,
        0xff, 0x9c, 0x00, 0x32, 0x00, 0x00, 0x00, 0x01, 0x00, 0x00, 0x00, 0x00, 0x00, 0x00, 0x00, 0x00,
        0x00, 0x00, 0x00, 0x00, 0x00, 0x00, 0x00, 0x00,
    ]
}

fn generator() -> BatteryIconGenerator {
    BatteryIconGenerator::new(test_font()).unwrap()
}

#[test]
fn font_loads() {
    let g = BatteryIconGenerator::new(test_font());
    assert!(g.is_ok());
}

#[test]
fn garbage_font_rejected() {
    let g = BatteryIconGenerator::new(vec![1, 2, 3, 4]);
    assert!(matches!(g, Err(IconError::FontRejected)));
}

#[test]
fn empty_font_rejected() {
    let g = BatteryIconGenerator::new(Vec::new());
    assert!(matches!(g, Err(IconError::FontRejected)));
}

#[test]
fn measure_two_digits() {
    let g = generator();
    // "42" is two glyphs of 600 units: 1200 * 533 / (10 * 1000) = 63 px,
    // ascent 800 * 533 / (10 * 1000) = 42 px.
    let (w, a) = g.measure_text("42", 533);
    assert_eq!(w, 63);
    assert_eq!(a, 42);
    let (w2, _) = g.measure_text("42", 534);
    assert_eq!(w2, 64);
}

#[test]
fn measure_is_monotone_in_scale() {
    let g = generator();
    let mut prev = 0u64;
    let mut s = 10u32;
    while s <= 2000 {
        let (w, _) = g.measure_text("137", s);
        assert!(w >= prev);
        prev = w;
        s += 1;
    }
}

#[test]
fn fit_two_digit_text() {
    let g = generator();
    // Largest scale in tenths with 1200 * s / 10000 under 64 is 533.
    assert_eq!(g.find_scale_for_width("42"), 533);
}

#[test]
fn fit_three_glyph_text() {
    let g = generator();
    // Largest scale in tenths with 1800 * s / 10000 under 64 is 355.
    assert_eq!(g.find_scale_for_width("^_^"), 355);
    assert_eq!(g.find_scale_for_width("50*"), 355);
}

#[test]
fn fit_straddles_canvas_side() {
    let g = generator();
    let s = g.find_scale_for_width("42");
    let (w_at, _) = g.measure_text("42", s);
    let (w_above, _) = g.measure_text("42", s + 1);
    assert!(w_at < 64);
    assert!(w_above >= 64);
}

#[test]
fn fit_empty_text_converges_to_upper_bound() {
    let g = generator();
    // Width is 0 at every scale, so the search walks to the top of the range.
    assert_eq!(g.find_scale_for_width(""), 1999);
}

#[test]
fn position_centers_fitted_text() {
    let g = generator();
    assert_eq!(g.compute_position(63, 42), (0, 11));
    assert_eq!(g.compute_position(64, 64), (0, 0));
    assert_eq!(g.compute_position(10, 20), (27, 22));
}

#[test]
fn position_truncates_toward_zero_when_oversized() {
    let g = generator();
    // (64 - 1000) / 2 = -468, truncated toward zero.
    assert_eq!(g.compute_position(1000, 0), (-468, 32));
    assert_eq!(g.compute_position(65, 63), (0, 0));
    assert_eq!(g.compute_position(67, 63), (-1, 0));
}

#[test]
fn icon_for_plain_percentage_decodes() {
    let g = generator();
    let bytes = g.generate_icon(42, false).unwrap();
    assert!(!bytes.is_empty());
    let img = image::load_from_memory_with_format(&bytes, image::ImageFormat::Ico).unwrap();
    assert_eq!(img.width(), 64);
    assert_eq!(img.height(), 64);
}

#[test]
fn icon_drawing_leaves_marks_on_canvas() {
    let g = generator();
    let bytes = g.generate_icon(42, false).unwrap();
    let img = image::load_from_memory_with_format(&bytes, image::ImageFormat::Ico)
        .unwrap()
        .to_rgba8();
    // The box glyphs must have painted at least one opaque black pixel.
    let mut black = 0usize;
    for p in img.pixels() {
        if p.0 == [0, 0, 0, 255] {
            black += 1;
        }
    }
    assert!(black > 0);
}

#[test]
fn rendering_is_idempotent() {
    let g = generator();
    let a = g.generate_icon(42, false).unwrap();
    let b = g.generate_icon(42, false).unwrap();
    assert_eq!(a, b);
    let c = g.render_icon(0, 11, 533, "42").unwrap();
    let d = g.render_icon(0, 11, 533, "42").unwrap();
    assert_eq!(c, d);
}

#[test]
fn topped_off_icon_matches_full_marker() {
    let g = generator();
    // 99% and 98% both show the full marker while charging, so the icons
    // are byte-identical; the non-charging 99% icon differs.
    let a = g.generate_icon(99, true).unwrap();
    let b = g.generate_icon(98, true).unwrap();
    let c = g.generate_icon(99, false).unwrap();
    assert_eq!(a, b);
    assert_ne!(a, c);
}

#[test]
fn charging_icon_differs_from_plain() {
    let g = generator();
    let a = g.generate_icon(50, true).unwrap();
    let b = g.generate_icon(50, false).unwrap();
    assert_ne!(a, b);
}

#[test]
fn out_of_range_percentage_rejected() {
    let g = generator();
    assert!(matches!(g.generate_icon(101, false), Err(IconError::PercentageOutOfRange)));
    assert!(matches!(g.generate_icon(101, true), Err(IconError::PercentageOutOfRange)));
    assert!(matches!(g.generate_icon(u32::MAX, true), Err(IconError::PercentageOutOfRange)));
    assert!(g.generate_icon(100, false).is_ok());
}

#[test]
fn cache_hit_skips_renderer() {
    let g = generator();
    let mut cache = IconCache::new(&g);
    assert_eq!(cache.render_count(), 0);
    let first = cache.get_or_render(&g, 42, false).unwrap();
    assert_eq!(cache.render_count(), 1);
    let second = cache.get_or_render(&g, 42, false).unwrap();
    assert_eq!(cache.render_count(), 1);
    assert_eq!(first, second);
    assert_eq!(first, g.generate_icon(42, false).unwrap());
}

#[test]
fn cache_distinguishes_charging_states() {
    let g = generator();
    let mut cache = IconCache::new(&g);
    let plain = cache.get_or_render(&g, 50, false).unwrap();
    let charging = cache.get_or_render(&g, 50, true).unwrap();
    assert_eq!(cache.render_count(), 2);
    assert_ne!(plain, charging);
}

#[test]
fn cache_rejects_out_of_range_without_rendering() {
    let g = generator();
    let mut cache = IconCache::new(&g);
    let r = cache.get_or_render(&g, 101, false);
    assert!(matches!(r, Err(IconError::PercentageOutOfRange)));
    assert_eq!(cache.render_count(), 0);
}

#[test]
fn every_valid_percentage_renders() {
    let g = generator();
    for p in 0..=100u32 {
        for charging in [false, true] {
            assert!(g.generate_icon(p, charging).is_ok());
        }
    }
}
