use retrofont::convert::{can_convert_figlet_to_tdf, figlet_to_tdf};
use retrofont::figlet::FigletFont;
use retrofont::tdf::{TdfFont, TdfFontType};

/// A FIGlet font with every required character and one extra, three lines high.
fn sample_flf() -> Vec<u8> {
    let mut s = String::from("flf2a$ 3 2 8 -1 1\nsample font\n");
    for code in 32u8..=126 {
        let c = if code == b'@' { 'x' } else { code as char };
        s.push_str(&format!("{c}{c}@\n{c}$@\n@@\n"));
    }
    s.push_str("##@\n##@\n@@\n");
    s.into_bytes()
}

#[test]
fn test_figlet_to_tdf_compatibility() {
    let bytes = sample_flf();
    let fig = FigletFont::load(&bytes).expect("Failed to load FIGlet font");
    assert!(can_convert_figlet_to_tdf(&fig, TdfFontType::Block));
    assert!(can_convert_figlet_to_tdf(&fig, TdfFontType::Color));
    assert!(can_convert_figlet_to_tdf(&fig, TdfFontType::Outline));
}

#[test]
fn test_figlet_to_tdf_conversion_block() {
    let bytes = sample_flf();
    let fig = FigletFont::load(&bytes).expect("Failed to load FIGlet font");
    let tdf = figlet_to_tdf(&fig, TdfFontType::Block).expect("Conversion should succeed");
    assert_eq!(tdf.name, fig.name);
    assert_eq!(tdf.font_type, TdfFontType::Block);
    assert!(tdf.has_char('A'), "Should have character 'A'");
    assert!(tdf.has_char('!'), "Should have character '!'");
    assert!(tdf.has_char('~'), "Should have character '~'");
    assert!(tdf.glyph_count() > 0, "Should have converted some characters");
}

#[test]
fn test_figlet_to_tdf_only_converts_printable_range() {
    let bytes = sample_flf();
    let fig = FigletFont::load(&bytes).expect("Failed to load FIGlet font");
    let tdf = figlet_to_tdf(&fig, TdfFontType::Block).expect("Conversion should succeed");
    assert!(!tdf.has_char('\0'), "Should not have null character (outside TDF range)");
    let valid_chars = "ABCDEFGHIJKLMNOPQRSTUVWXYZabcdefghijklmnopqrstuvwxyz0123456789!@#$%^&*()_+-=[]{}|;:',.<>?/~";
    for ch in valid_chars.chars() {
        if fig.has_char(ch) {
            assert!(tdf.has_char(ch), "Character '{}' should be converted if it exists in FIGlet", ch);
        }
    }
}

#[test]
fn test_figlet_to_tdf_roundtrip() {
    let bytes = sample_flf();
    let fig = FigletFont::load(&bytes).expect("Failed to load FIGlet font");
    let tdf = figlet_to_tdf(&fig, TdfFontType::Block).expect("Conversion should succeed");
    let tdf_bytes = tdf.to_bytes().expect("Serialization should succeed");
    let tdf_fonts = TdfFont::load(&tdf_bytes).expect("Should parse TDF bytes");
    assert_eq!(tdf_fonts.len(), 1, "Should have one font in bundle");
    let tdf_parsed = &tdf_fonts[0];
    assert_eq!(tdf_parsed.name, tdf.name);
    assert_eq!(tdf_parsed.font_type, tdf.font_type);
    assert_eq!(
        tdf_parsed.glyph_count(),
        tdf.glyph_count(),
        "Character count should match after roundtrip"
    );
}

#[test]
fn conversion_rejects_outline_target() {
    let fig = FigletFont::load(&sample_flf()).unwrap();
    assert!(matches!(
        figlet_to_tdf(&fig, TdfFontType::Outline),
        Err(retrofont::FontError::UnsupportedType)
    ));
}

#[test]
fn conversion_rejects_font_without_fitting_glyph() {
    let mut fig = FigletFont::new("wide");
    let wide = "x".repeat(31);
    fig.add_raw_char(b'A', &[wide.as_str()]);
    assert!(!can_convert_figlet_to_tdf(&fig, TdfFontType::Block));
    assert!(matches!(
        figlet_to_tdf(&fig, TdfFontType::Block),
        Err(retrofont::FontError::ConversionIncompatible)
    ));
}

#[test]
fn conversion_colors_plain_characters() {
    let mut fig = FigletFont::new("c");
    fig.add_raw_char(b'A', &["ab", "c"]);
    let tdf = figlet_to_tdf(&fig, TdfFontType::Color).unwrap();
    let g = tdf.glyph('A').unwrap();
    assert_eq!(g.width, 2);
    assert_eq!(g.height, 2);
    assert_eq!(
        g.parts[0],
        retrofont::GlyphPart::AnsiChar { ch: 'a', fg: 7, bg: 0, blink: false }
    );
    assert_eq!(g.parts[2], retrofont::GlyphPart::NewLine);
}

#[test]
fn conversion_never_produces_glyphs_outside_printable_range() {
    let mut fig = FigletFont::new("range");
    fig.add_raw_char(0, &["n"]);
    fig.add_raw_char(b' ', &["s"]);
    fig.add_raw_char(127, &["d"]);
    fig.add_raw_char(b'A', &["a"]);
    let tdf = figlet_to_tdf(&fig, TdfFontType::Block).unwrap();
    assert_eq!(tdf.glyph_count(), 1);
    assert!(!tdf.has_char('\0'));
    assert!(!tdf.has_char(' '));
    assert!(!tdf.has_char('\u{7f}'));
    assert!(tdf.has_char('A'));
}
