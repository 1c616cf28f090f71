use retrofont::tdf::{TdfFont, TdfFontType};
use retrofont::test_support::BufferTarget;
use retrofont::{Font, Glyph, GlyphPart, RenderOptions};

/// A bundle of three block fonts that define only uppercase letters.
fn zetrax() -> Vec<u8> {
    let mut fonts = Vec::new();
    for (i, name) in ["ZETRAX 1", "ZETRAX 2", "ZETRAX 3"].iter().enumerate() {
        let mut f = TdfFont::new(name, TdfFontType::Block, i as i32);
        for c in 'A'..='Z' {
            f.add_glyph(
                c,
                Glyph {
                    width: 2,
                    height: 2,
                    parts: vec![
                        GlyphPart::Char(c),
                        GlyphPart::Char('\u{2588}'),
                        GlyphPart::NewLine,
                        GlyphPart::Char('\u{2580}'),
                        GlyphPart::Char('\u{2580}'),
                    ],
                },
            );
        }
        fonts.push(f);
    }
    TdfFont::serialize_bundle(&fonts).unwrap()
}

#[test]
fn test_load_zetrax_via_unified_api() {
    let fonts = Font::load(&zetrax()).unwrap();
    assert!(fonts.len() > 1, "Expected multiple fonts in ZETRAX.TDF, got {}", fonts.len());
    for font in &fonts {
        assert!(!font.name().is_empty());
    }
}

#[test]
fn test_render_via_unified_api() {
    let fonts = Font::load(&zetrax()).unwrap();
    let font = &fonts[0];
    let mut target = BufferTarget::new();
    let options = RenderOptions::default();
    if font.has_char('A') {
        font.render_glyph(&mut target, 'A', &options).unwrap();
        assert!(!target.lines.is_empty(), "Rendering 'A' should produce output");
        assert!(!target.lines[0].is_empty(), "First line should have cells");
    }
}

#[test]
fn test_unified_api_spacing() {
    let fonts = Font::load(&zetrax()).unwrap();
    for font in &fonts {
        let spacing = font.spacing();
        assert!(spacing.is_some(), "Font {} should have spacing", font.name());
    }
}

#[test]
fn test_unified_api_case_fallback() {
    let fonts = Font::load(&zetrax()).unwrap();
    let font = &fonts[0];
    let mut target = BufferTarget::new();
    let options = RenderOptions::default();
    if font.has_char('A') && !font.has_char('a') {
        font.render_glyph(&mut target, 'a', &options).unwrap();
        assert!(!target.lines.is_empty(), "Case fallback should render 'a' as 'A'");
    }
}

#[test]
fn case_fallback_renders_the_uppercase_glyph() {
    let fonts = Font::load(&zetrax()).unwrap();
    let font = &fonts[0];
    let mut lower = BufferTarget::new();
    font.render_glyph(&mut lower, 'q', &RenderOptions::default()).unwrap();
    let mut upper = BufferTarget::new();
    font.render_glyph(&mut upper, 'Q', &RenderOptions::default()).unwrap();
    assert_eq!(lower.lines, upper.lines);
    assert_eq!(lower.lines[0][0].ch, 'Q');
}

#[test]
fn unknown_character_is_an_error() {
    let fonts = Font::load(&zetrax()).unwrap();
    let mut t = BufferTarget::new();
    assert!(matches!(
        fonts[0].render_glyph(&mut t, '1', &RenderOptions::default()),
        Err(retrofont::FontError::UnknownChar('1'))
    ));
}

#[test]
fn missing_space_renders_spacing_blanks() {
    let fonts = Font::load(&zetrax()).unwrap();
    let mut t = BufferTarget::new();
    fonts[2].render_glyph(&mut t, ' ', &RenderOptions::default()).unwrap();
    assert_eq!(t.lines[0].len(), 2);
    assert!(t.lines[0].iter().all(|c| c.ch == ' '));
}

#[test]
fn unrecognized_format_is_refused() {
    assert!(matches!(Font::load(b"hello"), Err(retrofont::FontError::UnrecognizedFormat)));
}

#[test]
fn empty_bundle_is_refused() {
    let bundle = TdfFont::serialize_bundle(&[]).unwrap();
    assert!(matches!(Font::load(&bundle), Err(retrofont::FontError::TdfEmptyBundle)));
}

#[test]
fn figlet_text_is_detected() {
    let fonts = Font::load(b"flf2a$ 1 1 1 -1 0\n").unwrap();
    assert_eq!(fonts.len(), 1);
    assert!(matches!(fonts[0], Font::Figlet(_)));
    assert_eq!(fonts[0].default_extension(), "flf");
}
