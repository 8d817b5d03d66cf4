use skia_safe::engine::Engine;
use skia_safe::font::Edging;
use skia_safe::font::Font;
use skia_safe::font::FontHinting;
use skia_safe::point::Point;
use skia_safe::text_encoding::TextEncoding;
use skia_safe::typeface::Typeface;

#[test]
fn font_construction_takes_a_typeface_share() {
    let mut e = Engine::new();
    let tf = Typeface::new_default(&mut e);
    let font = Font::from_typeface(&tf, None, &mut e);
    assert_eq!(font.size(), 12);
    assert_eq!(font.scale_x(), 1);
    assert_eq!(font.skew_x(), 0);
    tf.drop_handle(&mut e);
    assert!(e.live_objects() == 1);
    font.drop_handle(&mut e);
    assert_eq!(e.live_objects(), 0);
}

#[test]
fn font_flags_round_trip() {
    let mut font = Font::default();
    assert!(!font.is_subpixel());
    font.set_subpixel(true);
    assert!(font.is_subpixel());
    font.set_embolden(true).set_linear_metrics(true);
    assert!(font.is_embolden());
    assert!(font.is_linear_metrics());
    font.set_subpixel(false);
    assert!(!font.is_subpixel());
    assert!(!font.is_force_auto_hinting());
    assert!(!font.is_embedded_bitmaps());
    font.set_force_autohinting(true).set_embedded_bitmaps(true);
    assert!(font.is_force_auto_hinting());
    assert!(font.is_embedded_bitmaps());
}

#[test]
fn font_edging_and_hinting() {
    let mut font = Font::default();
    assert_eq!(font.edging(), Edging::AntiAlias);
    assert_eq!(font.hinting(), FontHinting::Normal);
    font.set_edging(Edging::Alias).set_hinting(FontHinting::Full);
    assert_eq!(font.edging(), Edging::Alias);
    assert_eq!(font.hinting(), FontHinting::Full);
}

#[test]
fn with_size_rejects_negative_sizes() {
    let font = Font::default();
    assert!(font.with_size(-1, &mut Engine::new()).is_none());
    let bigger = font.with_size(20, &mut Engine::new()).unwrap();
    assert_eq!(bigger.size(), 20);
}

#[test]
fn str_glyphs_map_code_points() {
    let font = Font::default();
    assert_eq!(font.count_str("hello"), 5);
    let glyphs = font.str_to_glyphs_vec("AB");
    assert_eq!(glyphs, vec![65u16, 66u16]);
    let mut out = vec![9u16; 1];
    let total = font.str_to_glyphs("AB", &mut out);
    assert_eq!(total, 2);
    assert_eq!(out, vec![9u16]);
    let mut room = vec![0u16; 3];
    let total = font.str_to_glyphs("AB", &mut room);
    assert_eq!(total, 2);
    assert_eq!(room, vec![65u16, 66, 0]);
}

#[test]
fn utf8_text_decodes_multibyte_units() {
    let font = Font::default();
    let text = vec![0x41u8, 0xC3, 0xA9, 0x42];
    assert_eq!(font.count_text(&text, TextEncoding::UTF8), 3);
    let glyphs = font.text_to_glyphs_vec(&text, TextEncoding::UTF8);
    assert_eq!(glyphs, vec![0x41u16, 0xE9, 0x42]);
}

#[test]
fn utf16_and_utf32_and_glyph_streams() {
    let font = Font::default();
    let text16 = vec![0x41u8, 0x00, 0x42, 0x00];
    assert_eq!(font.count_text(&text16, TextEncoding::UTF16), 2);
    let text32 = vec![0x41u8, 0x00, 0x00, 0x00];
    assert_eq!(font.count_text(&text32, TextEncoding::UTF32), 1);
    let glyph_stream = vec![0x07u8, 0x00, 0xFF, 0xFF];
    let glyphs = font.text_to_glyphs_vec(&glyph_stream, TextEncoding::GlyphId);
    assert_eq!(glyphs, vec![7u16, 0xFFFF]);
}

#[test]
fn measure_advances_by_size_per_glyph() {
    let font = Font::default();
    let (width, bounds) = font.measure_str("abcd", None);
    assert_eq!(width, 48);
    assert_eq!(bounds.right, 48);
    assert_eq!(bounds.top, -12);
    assert_eq!(bounds.left, 0);
    assert_eq!(bounds.bottom, 0);
}

#[test]
fn widths_and_positions() {
    let font = Font::default();
    let glyphs = vec![65u16, 66, 67];
    let mut widths = vec![0i32; 3];
    font.get_widths(&glyphs, &mut widths);
    assert_eq!(widths, vec![12, 12, 12]);
    let mut pos = vec![Point::new(0, 0); 3];
    font.get_pos(&glyphs, &mut pos, Some(Point::new(100, 5)));
    assert_eq!(pos[0], Point::new(100, 5));
    assert_eq!(pos[1], Point::new(112, 5));
    assert_eq!(pos[2], Point::new(124, 5));
    let mut xpos = vec![0i32; 3];
    font.get_x_pos(&glyphs, &mut xpos, None);
    assert_eq!(xpos, vec![0, 12, 24]);
}

#[test]
fn glyph_paths_exist_except_for_the_missing_glyph() {
    let font = Font::default();
    assert!(font.get_path(0).is_none());
    let path = font.get_path(65).unwrap();
    assert_eq!(path.count_points(), 0);
    assert_eq!(font.unichar_to_glyph(65), 65);
    assert_eq!(font.unichar_to_glyph(-1), 0);
    assert_eq!(font.unichar_to_glyph(0x20000), 0);
}

#[test]
fn metrics_report_the_size() {
    let font = Font::default();
    let (spacing, metrics) = font.metrics();
    assert_eq!(spacing, 12);
    assert_eq!(metrics.cap_height, 12);
    assert_eq!(metrics.underline_thickness(), Some(1));
    assert_eq!(metrics.strikeout_position(), Some(-12));
    assert_eq!(font.spacing(), 12);
}

#[test]
fn typeface_accessors_share_and_default() {
    let mut e = Engine::new();
    let font = Font::default();
    assert!(font.typeface(&mut e).is_none());
    let tf = font.typeface_or_default(&mut e);
    assert!(e.is_alive(tf.ptr));
    tf.drop_handle(&mut e);
    let tf2 = Typeface::new_default(&mut e);
    let mut font2 = Font::default();
    font2.set_typeface(&tf2, &mut e);
    let shared = font2.typeface(&mut e).unwrap();
    assert_eq!(shared.ptr, tf2.ptr);
    shared.drop_handle(&mut e);
    tf2.drop_handle(&mut e);
    font2.drop_handle(&mut e);
    assert_eq!(e.live_objects(), 0);
}
