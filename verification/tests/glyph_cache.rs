//! Cache-level behavior: memoization, key packing, and texture uploads.

use peppa::font::{Bitmap, Font, FontDescription, FontStyle, Slant, Weight};
use peppa::glyph::{GlyphCache, GlyphKey};
use peppa::gpu::GpuCommand;
use peppa::setup_opengl;

fn test_font() -> Font {
    let mut font = Font::new("Peppa Test Sans", 14, crossfont::Size::new(14.0))
        .expect("the platform rasterizer should start");
    font.compute_font_keys().expect("some regular font should resolve");
    font
}

#[test]
fn repeated_get_returns_the_same_glyph_without_reupload() {
    let mut cache = GlyphCache::new(test_font()).expect("a fresh cache");
    let mut gpu = setup_opengl();
    let key = GlyphKey { font: 0, character: 'A', size: 14 };

    let first = cache.get(key, &mut gpu);
    gpu.take_commands();
    let second = cache.get(key, &mut gpu);

    assert_eq!(first, second);
    let commands = gpu.take_commands();
    assert!(commands.is_empty(), "a cache hit must issue no GPU command");
}

#[test]
fn distinct_uploads_receive_distinct_textures() {
    let cache = GlyphCache::new(test_font()).expect("a fresh cache");
    let mut gpu = setup_opengl();
    let bitmap_a = Bitmap { width: 2, height: 2, top: 0, left: 0, colored: false, data: vec![0u8; 12] };
    let bitmap_b = Bitmap { width: 3, height: 1, top: 1, left: 1, colored: true, data: vec![9u8; 12] };

    let glyph_a = cache.load_glyph(bitmap_a, &mut gpu);
    let glyph_b = cache.load_glyph(bitmap_b, &mut gpu);

    assert_ne!(glyph_a.texture, 0);
    assert_ne!(glyph_b.texture, 0);
    assert_ne!(glyph_a.texture, glyph_b.texture);
}

#[test]
fn load_glyph_uploads_the_bitmap_once() {
    let cache = GlyphCache::new(test_font()).expect("a fresh cache");
    let mut gpu = setup_opengl();
    let bitmap = Bitmap { width: 4, height: 2, top: 1, left: 0, colored: true, data: vec![7u8; 32] };

    let glyph = cache.load_glyph(bitmap, &mut gpu);

    let commands = gpu.take_commands();
    assert_eq!(commands.len(), 1);
    assert!(matches!(
        &commands[0],
        GpuCommand::CreateTexture { width: 4, height: 2, colored: true, .. }
    ));
    assert_eq!(glyph.width, 4);
    assert_eq!(glyph.height, 2);
    assert_eq!(glyph.top, 1);
    assert_eq!(glyph.left, 0);
    assert!(glyph.colored);
}

#[test]
fn get_inserts_under_the_requested_key() {
    let mut cache = GlyphCache::new(test_font()).expect("a fresh cache");
    let mut gpu = setup_opengl();
    let key = GlyphKey { font: 0, character: 'z', size: 14 };

    assert!(!cache.contains(key));
    cache.get(key, &mut gpu);
    assert!(cache.contains(key));
    assert!(!cache.contains(GlyphKey { font: 0, character: 'z', size: 15 }));
}

#[test]
fn key_codes_separate_font_character_and_size() {
    let base = GlyphKey { font: 3, character: 'A', size: 14 };
    let other_char = GlyphKey { font: 3, character: 'B', size: 14 };
    let other_size = GlyphKey { font: 3, character: 'A', size: 15 };
    let other_font = GlyphKey { font: 4, character: 'A', size: 14 };

    assert_ne!(base.key_code(), other_char.key_code());
    assert_ne!(base.key_code(), other_size.key_code());
    assert_ne!(base.key_code(), other_font.key_code());

    let key = GlyphKey { font: 1, character: 'A', size: 2 };
    assert_eq!(key.key_code(), 0x1_0000_0002_0000_0041u128);
}

#[test]
fn a_resolution_without_the_fallback_always_delivers_a_key() {
    let mut font = Font::new("Peppa Test Sans", 14, crossfont::Size::new(14.0))
        .expect("the platform rasterizer should start");
    let result = font.compute_font_keys();
    if !font.fallback_was_used() {
        assert!(result.is_ok());
    }
    if result.is_err() {
        assert!(font.fallback_was_used());
    }
}

#[test]
fn metrics_resolve_for_a_loaded_font() {
    let mut font = test_font();
    let metrics = font.metrics().expect("metrics of a resolved font");
    assert!(metrics.average_advance.is_finite());
    assert!(metrics.line_height.is_finite());
}

#[test]
fn fallback_description_names_the_default_family() {
    let desc = Font::fallback_description();
    assert_eq!(desc.family, "Source Han Mono");
    assert_eq!(desc.style.as_deref(), Some("Regular"));
}

#[test]
fn named_style_wins_over_slant_and_weight() {
    let named = FontDescription {
        family: String::from("Any"),
        style: Some(String::from("Bold Italic")),
    };
    match Font::style_choice(&named, Slant::Normal, Weight::Normal) {
        FontStyle::Specific(name) => assert_eq!(name, "Bold Italic"),
        FontStyle::Description { .. } => panic!("the named style must win"),
    }

    let described = FontDescription { family: String::from("Any"), style: None };
    assert!(matches!(
        Font::style_choice(&described, Slant::Italic, Weight::Bold),
        FontStyle::Description { slant: Slant::Italic, weight: Weight::Bold }
    ));
}
