use retrofont::tdf::{TdfFont, TdfFontType};
use retrofont::test_support::BufferTarget;
use retrofont::{Font, Glyph, GlyphPart, RenderOptions};

fn lines(buf: &BufferTarget) -> Vec<String> {
    buf.lines
        .iter()
        .map(|l| l.iter().map(|c| c.ch).collect())
        .collect()
}

fn color(ch: char, fg: u8, bg: u8) -> GlyphPart {
    GlyphPart::AnsiChar { ch, fg, bg, blink: false }
}

#[test]
fn tdf_basic_tdf_round_trip_block_single_glyph() {
    let mut font = TdfFont::new("TEST", TdfFontType::Block, 0);
    let glyph = Glyph {
        width: 4,
        height: 2,
        parts: vec![
            GlyphPart::Char('A'),
            GlyphPart::Char('B'),
            GlyphPart::NewLine,
            GlyphPart::Char('C'),
            GlyphPart::Char('D'),
        ],
    };
    font.add_glyph('A', glyph.clone());
    let bytes = font.to_bytes().expect("serialize");
    let parsed = TdfFont::load(&bytes).expect("parse");
    assert_eq!(parsed.len(), 1);
    let p = &parsed[0];
    assert_eq!(p.name, "TEST");
    assert_eq!(p.font_type(), TdfFontType::Block);
    let mut target = BufferTarget::new();
    Font::Tdf(p.clone())
        .render_glyph(&mut target, 'A', &RenderOptions::default())
        .unwrap();
    let line0: String = target.lines[0].iter().map(|c| c.ch).collect();
    assert_eq!(line0, "AB");
    let line1: String = target.lines[1].iter().map(|c| c.ch).collect();
    assert_eq!(line1, "CD");
}

#[test]
fn basic_tdf_round_trip_block_single_glyph() {
    let mut font = TdfFont::new("TEST", TdfFontType::Block, 0);
    let glyph = Glyph {
        width: 4,
        height: 2,
        parts: vec![
            GlyphPart::Char('A'),
            GlyphPart::Char('B'),
            GlyphPart::NewLine,
            GlyphPart::Char('C'),
            GlyphPart::Char('D'),
        ],
    };
    font.add_glyph('A', glyph);
    let bytes = font.to_bytes().expect("serialize");
    let parsed = TdfFont::load(&bytes).expect("parse");
    assert_eq!(parsed.len(), 1);
    let p = &parsed[0];
    assert_eq!(p.name, "TEST");
    assert_eq!(p.font_type(), TdfFontType::Block);
    let mut target = BufferTarget::new();
    Font::Tdf(p.clone())
        .render_glyph(&mut target, 'A', &RenderOptions::default())
        .unwrap();
    assert_eq!(lines(&target), vec!["AB", "CD"]);
}

#[test]
fn tdf_basic_tdf_round_trip_color_attributes() {
    let mut font = TdfFont::new("COLOR", TdfFontType::Color, 0);
    let glyph = Glyph {
        width: 3,
        height: 2,
        parts: vec![
            color('A', 0x1, 0xE),
            GlyphPart::NewLine,
            GlyphPart::EndMarker,
            color('B', 0x2, 0xF),
        ],
    };
    font.add_glyph('Z', glyph.clone());
    let bytes = font.to_bytes().unwrap();
    let parsed = TdfFont::load(&bytes).unwrap();
    let mut target = BufferTarget::new();
    Font::Tdf(parsed[0].clone())
        .render_glyph(&mut target, 'Z', &RenderOptions::edit())
        .unwrap();
    let rendered_line0: String = target.lines[0].iter().map(|c| c.ch).collect();
    let rendered_line1: String = target.lines[1].iter().map(|c| c.ch).collect();
    assert_eq!(rendered_line0, "A");
    assert_eq!(rendered_line1, "&B");
}

#[test]
fn basic_tdf_round_trip_color_attributes() {
    let mut font = TdfFont::new("COLOR", TdfFontType::Color, 0);
    let glyph = Glyph {
        width: 3,
        height: 2,
        parts: vec![
            color('A', 0x1, 0xE),
            GlyphPart::NewLine,
            GlyphPart::EndMarker,
            color('B', 0x2, 0xF),
        ],
    };
    font.add_glyph('Z', glyph);
    let bytes = font.to_bytes().unwrap();
    let parsed = TdfFont::load(&bytes).unwrap();
    assert_eq!(parsed.len(), 1);
    let mut target = BufferTarget::new();
    Font::Tdf(parsed[0].clone())
        .render_glyph(&mut target, 'Z', &RenderOptions::default())
        .unwrap();
    assert!(!lines(&target).is_empty());
}

fn block_xy() -> TdfFont {
    let mut font = TdfFont::new("BLK", TdfFontType::Block, 0);
    font.add_glyph(
        'X',
        Glyph {
            width: 2,
            height: 2,
            parts: vec![
                GlyphPart::Char('X'),
                GlyphPart::Char('Y'),
                GlyphPart::NewLine,
                GlyphPart::Char('Z'),
                GlyphPart::Char('W'),
            ],
        },
    );
    font
}

#[test]
fn tdf_basic_tdf_render_block_multiline() {
    let font = block_xy();
    let mut target = BufferTarget::new();
    Font::Tdf(font.clone())
        .render_glyph(&mut target, 'X', &RenderOptions::default())
        .unwrap();
    assert_eq!(lines(&target), vec!["XY", "ZW"]);
}

#[test]
fn basic_tdf_render_block_multiline() {
    let font = block_xy();
    let mut target = BufferTarget::new();
    Font::Tdf(font.clone())
        .render_glyph(&mut target, 'X', &RenderOptions::default())
        .unwrap();
    let lines = lines(&target);
    assert_eq!(lines, vec!["XY", "ZW"]);
}

fn amp_font() -> TdfFont {
    let mut font = TdfFont::new("AMP", TdfFontType::Block, 0);
    font.add_glyph(
        'A',
        Glyph {
            width: 3,
            height: 1,
            parts: vec![GlyphPart::Char('A'), GlyphPart::Char('B'), GlyphPart::EndMarker],
        },
    );
    font
}

#[test]
fn tdf_ampersand_hidden_display_visible_edit() {
    let font = amp_font();
    let mut d = BufferTarget::new();
    Font::Tdf(font.clone())
        .render_glyph(&mut d, 'A', &RenderOptions::default())
        .unwrap();
    assert_eq!(lines(&d), vec!["AB"]);
    let mut e = BufferTarget::new();
    Font::Tdf(font)
        .render_glyph(&mut e, 'A', &RenderOptions::edit())
        .unwrap();
    assert_eq!(lines(&e), vec!["AB&"]);
}

#[test]
fn tdf_render_ampersand_hidden_in_display_visible_in_edit() {
    let font = amp_font();
    let mut d_target = BufferTarget::new();
    Font::Tdf(font.clone())
        .render_glyph(&mut d_target, 'A', &RenderOptions::default())
        .unwrap();
    assert_eq!(lines(&d_target), vec!["AB"]);
    let mut e_target = BufferTarget::new();
    Font::Tdf(font)
        .render_glyph(&mut e_target, 'A', &RenderOptions::edit())
        .unwrap();
    assert_eq!(lines(&e_target), vec!["AB&"]);
}

#[test]
fn basic_tdf_bundle_multiple_fonts() {
    let mut f1 = TdfFont::new("ONE", TdfFontType::Block, 0);
    f1.add_glyph(
        'A',
        Glyph { width: 1, height: 1, parts: vec![GlyphPart::Char('A')] },
    );
    let mut f2 = TdfFont::new("TWO", TdfFontType::Color, 0);
    f2.add_glyph(
        'B',
        Glyph { width: 1, height: 1, parts: vec![color('B', 0x1, 0xF)] },
    );
    let bundle = TdfFont::serialize_bundle(&[f1, f2]).unwrap();
    let parsed = TdfFont::load(&bundle).unwrap();
    assert_eq!(parsed.len(), 2);
    assert_eq!(parsed[0].name, "ONE");
    assert_eq!(parsed[1].name, "TWO");
    assert_eq!(parsed[0].glyph_count(), 1);
    assert_eq!(parsed[1].glyph_count(), 1);
}

fn nibble_font() -> TdfFont {
    let mut font = TdfFont::new("COLR", TdfFontType::Color, 0);
    font.add_glyph(
        'C',
        Glyph {
            width: 3,
            height: 1,
            parts: vec![color('A', 0xA, 0xB), color(' ', 0x0, 0x1), color('B', 0x2, 0xC)],
        },
    );
    font
}

#[test]
fn tdf_basic_tdf_render_color_attribute_nibbles() {
    let font = nibble_font();
    let mut target = BufferTarget::new();
    Font::Tdf(font.clone())
        .render_glyph(&mut target, 'C', &RenderOptions::default())
        .unwrap();
    let line = lines(&target)[0].clone();
    assert_eq!(line, "A B");
    let cells = &target.lines[0];
    assert_eq!(cells[0].fg, Some(0xA & 0x0F));
    assert_eq!(cells[0].bg, Some(0xB & 0x0F));
}

#[test]
fn basic_tdf_render_color_attribute_nibbles() {
    let font = nibble_font();
    let mut target = BufferTarget::new();
    Font::Tdf(font)
        .render_glyph(&mut target, 'C', &RenderOptions::default())
        .unwrap();
    let line = lines(&target).pop().unwrap();
    assert_eq!(line, "A B");
    let cells = &target.lines[0];
    assert_eq!(cells[0].fg, Some(0xA));
    assert_eq!(cells[0].bg, Some(0xB));
}

#[test]
fn tdf_outline_markers() {
    let mut font = TdfFont::new("OUTL", TdfFontType::Outline, 0);
    font.add_glyph(
        'A',
        Glyph {
            width: 5,
            height: 1,
            parts: vec![
                GlyphPart::Char(' '),
                GlyphPart::FillMarker,
                GlyphPart::OutlineHole,
                GlyphPart::OutlinePlaceholder(b'A'),
                GlyphPart::OutlinePlaceholder(b'B'),
            ],
        },
    );
    let mut target = BufferTarget::new();
    Font::Tdf(font)
        .render_glyph(&mut target, 'A', &RenderOptions::default())
        .unwrap();
    let line = lines(&target)[0].clone();
    assert!(line.len() >= 4);
}

fn edit_font(name: &str) -> TdfFont {
    let mut font = TdfFont::new(name, TdfFontType::Outline, 0);
    font.add_glyph(
        'E',
        Glyph {
            width: 3,
            height: 1,
            parts: vec![GlyphPart::FillMarker, GlyphPart::OutlineHole, GlyphPart::EndMarker],
        },
    );
    font
}

#[test]
fn tdf_basic_tdf_edit_mode_preserves_markers() {
    let font = edit_font("EDIT");
    let mut target = BufferTarget::new();
    Font::Tdf(font.clone())
        .render_glyph(&mut target, 'E', &RenderOptions::edit())
        .unwrap();
    assert_eq!(lines(&target)[0], "@O&");
}

#[test]
fn basic_tdf_edit_mode_preserves_markers() {
    let font = edit_font("EDITM");
    let mut target = BufferTarget::new();
    Font::Tdf(font)
        .render_glyph(&mut target, 'E', &RenderOptions::edit())
        .unwrap();
    let line = lines(&target)[0].clone();
    assert_eq!(line, "@O&");
}

#[test]
fn tdf_outline_uses_unicode_box_chars() {
    let mut font = TdfFont::new("UNI", TdfFontType::Outline, 0);
    font.add_glyph(
        'U',
        Glyph {
            width: 3,
            height: 1,
            parts: vec![
                GlyphPart::OutlinePlaceholder(b'A'),
                GlyphPart::OutlinePlaceholder(b'B'),
                GlyphPart::OutlinePlaceholder(b'C'),
            ],
        },
    );
    let mut target = BufferTarget::new();
    Font::Tdf(font)
        .render_glyph(&mut target, 'U', &RenderOptions::default())
        .unwrap();
    assert_eq!(lines(&target)[0], "\u{2500}\u{2500}\u{2502}");
}
