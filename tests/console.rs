use retrofont::console::{render_to_ansi, validate_outline_style, ConsoleRenderer};
use retrofont::tdf::{TdfFont, TdfFontType};
use retrofont::{Cell, Font, FontTarget, Glyph, GlyphPart, RenderOptions};

#[test]
fn ansi_text_of_plain_and_colored_cells() {
    let mut r = ConsoleRenderer::new();
    r.draw(Cell::new('a', None, None, false)).unwrap();
    r.draw(Cell::new('b', Some(1), Some(14), false)).unwrap();
    r.next_line().unwrap();
    r.draw(Cell::new('c', Some(12), None, false)).unwrap();
    assert_eq!(
        r.into_ansi_string(),
        "a\x1B[38;2;0;0;170m\x1B[48;2;255;255;85mb\x1B[0m\n\x1B[38;2;255;85;85mc\x1B[0m"
    );
}

#[test]
fn glyphs_are_laid_side_by_side() {
    let mut r = ConsoleRenderer::new();
    r.draw(Cell::new('x', None, None, false)).unwrap();
    r.next_line().unwrap();
    r.draw(Cell::new('y', None, None, false)).unwrap();
    r.draw(Cell::new('y', None, None, false)).unwrap();
    r.next_char();
    r.draw(Cell::new('z', None, None, false)).unwrap();
    assert_eq!(r.into_ansi_string(), "x z\x1B[0m\nyy\x1B[0m");
}

#[test]
fn render_text_to_ansi() {
    let mut font = TdfFont::new("T", TdfFontType::Block, 1);
    font.add_glyph('H', Glyph { width: 1, height: 1, parts: vec![GlyphPart::Char('H')] });
    font.add_glyph('I', Glyph { width: 1, height: 1, parts: vec![GlyphPart::Char('I')] });
    let f = Font::Tdf(font);
    assert_eq!(render_to_ansi(&f, "HI", &RenderOptions::default()).unwrap(), "HI\x1B[0m");
    assert!(render_to_ansi(&f, "HQ", &RenderOptions::default()).is_err());
}

#[test]
fn outline_style_argument() {
    assert_eq!(validate_outline_style("0"), Ok(0));
    assert_eq!(validate_outline_style("+18"), Ok(18));
    assert_eq!(
        validate_outline_style("19"),
        Err("outline style 19 is out of range (valid: 0..18)".to_string())
    );
    assert_eq!(
        validate_outline_style("x1"),
        Err("'x1' is not a valid number".to_string())
    );
}
