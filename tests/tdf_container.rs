use retrofont::tdf::{TdfFont, TdfFontType};
use retrofont::{Glyph, GlyphPart};

const NAMES: [&str; 6] = [
    "Coder Blue",
    "Coder Green",
    "Coder Margen",
    "Coder Purple",
    "Coder Red",
    "Coder Silver",
];

/// A bundle of six color fonts.
fn test_font() -> Vec<u8> {
    let mut fonts = Vec::new();
    for (i, name) in NAMES.iter().enumerate() {
        let mut f = TdfFont::new(name, TdfFontType::Color, 1);
        f.add_glyph(
            'A',
            Glyph {
                width: 1,
                height: 1,
                parts: vec![GlyphPart::AnsiChar { ch: 'A', fg: i as u8, bg: 0, blink: false }],
            },
        );
        fonts.push(f);
    }
    TdfFont::serialize_bundle(&fonts).unwrap()
}

#[test]
fn test_load_bundle() {
    let fonts = TdfFont::load(&test_font()).unwrap();
    assert_eq!(6, fonts.len());
    for f in &fonts {
        assert_eq!(f.font_type(), TdfFontType::Color);
    }
    assert_eq!(fonts[0].name, "Coder Blue");
    assert_eq!(fonts[1].name, "Coder Green");
    assert_eq!(fonts[2].name, "Coder Margen");
    assert_eq!(fonts[3].name, "Coder Purple");
    assert_eq!(fonts[4].name, "Coder Red");
    assert_eq!(fonts[5].name, "Coder Silver");
}

#[test]
fn test_save_and_reload_bundle() {
    let fonts = TdfFont::load(&test_font()).unwrap();
    let bundle = TdfFont::serialize_bundle(&fonts).unwrap();
    let parsed = TdfFont::load(&bundle).unwrap();
    assert_eq!(parsed.len(), 6);
    for (a, b) in fonts.iter().zip(parsed.iter()) {
        assert_eq!(a.name, b.name);
    }
}
