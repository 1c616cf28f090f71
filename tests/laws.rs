use std::io::Write;

use retrofont::figlet::FigletFont;
use retrofont::tdf::{TdfFont, TdfFontType};
use retrofont::test_support::BufferTarget;
use retrofont::{transform_outline, Font, FontError, Glyph, GlyphPart, RenderMode, RenderOptions};

fn text(buf: &BufferTarget) -> Vec<String> {
    buf.lines
        .iter()
        .map(|l| l.iter().map(|c| c.ch).collect())
        .collect()
}

fn glyph(parts: Vec<GlyphPart>) -> Glyph {
    Glyph { width: parts.len(), height: 1, parts }
}

#[test]
fn round_trip_keeps_every_glyph() {
    let mut font = TdfFont::new("RT", TdfFontType::Block, 2);
    font.add_glyph(
        'A',
        Glyph {
            width: 2,
            height: 2,
            parts: vec![
                GlyphPart::Char('\u{2588}'),
                GlyphPart::HardBlank,
                GlyphPart::NewLine,
                GlyphPart::Skip,
                GlyphPart::EndMarker,
            ],
        },
    );
    font.add_glyph('~', glyph(vec![GlyphPart::Char('\u{2591}')]));
    let bytes = font.to_bytes().unwrap();
    let parsed = TdfFont::load(&bytes).unwrap();
    assert_eq!(parsed.len(), 1);
    let p = &parsed[0];
    assert_eq!(p.name, "RT");
    assert_eq!(p.font_type, TdfFontType::Block);
    assert_eq!(p.glyph_count(), 2);
    for c in ['A', '~'] {
        let a = font.glyph(c).unwrap();
        let b = p.glyph(c).unwrap();
        assert_eq!(a.parts, b.parts);
        assert_eq!(a.width, b.width);
        assert_eq!(a.height, b.height);
    }
    assert!(p.glyph('B').is_none());
}

#[test]
fn bundle_keeps_names_in_order() {
    let fonts: Vec<TdfFont> = ["first", "second", "third"]
        .iter()
        .map(|n| TdfFont::new(n, TdfFontType::Outline, 0))
        .collect();
    let bytes = TdfFont::serialize_bundle(&fonts).unwrap();
    assert_eq!(*bytes.last().unwrap(), 0);
    let parsed = TdfFont::load(&bytes).unwrap();
    let names: Vec<&str> = parsed.iter().map(|f| f.name.as_str()).collect();
    assert_eq!(names, vec!["first", "second", "third"]);
}

#[test]
fn overlay_renders_like_parsed_glyph() {
    let mut font = TdfFont::new("LZ", TdfFontType::Color, 0);
    let parts = vec![
        GlyphPart::AnsiChar { ch: 'Q', fg: 4, bg: 1, blink: true },
        GlyphPart::NewLine,
        GlyphPart::AnsiChar { ch: '\u{2580}', fg: 15, bg: 7, blink: false },
    ];
    font.add_glyph('Q', Glyph { width: 1, height: 2, parts });
    let parsed = TdfFont::load(&font.to_bytes().unwrap()).unwrap().remove(0);
    let lazy = parsed.glyph('Q').unwrap();
    let mut overlay = parsed.clone();
    overlay.add_glyph('R', lazy.clone());
    let mut a = BufferTarget::new();
    Font::Tdf(parsed).render_glyph(&mut a, 'Q', &RenderOptions::default()).unwrap();
    let mut b = BufferTarget::new();
    Font::Tdf(overlay).render_glyph(&mut b, 'R', &RenderOptions::default()).unwrap();
    assert_eq!(a.lines, b.lines);
}

#[test]
fn removal_is_idempotent() {
    let mut font = TdfFont::new("RM", TdfFontType::Block, 0);
    font.add_glyph('A', glyph(vec![GlyphPart::Char('A')]));
    font.add_glyph('B', glyph(vec![GlyphPart::Char('B')]));
    assert!(!font.remove_glyph('C'));
    assert_eq!(font.glyph_count(), 2);
    assert!(font.remove_glyph('A'));
    assert!(!font.has_char('A'));
    assert_eq!(font.glyph_count(), 1);
    assert!(!font.remove_glyph('A'));
    assert_eq!(font.glyph_count(), 1);

    let mut parsed = TdfFont::load(&font.to_bytes().unwrap()).unwrap().remove(0);
    assert!(parsed.has_char('B'));
    assert!(parsed.remove_glyph('B'));
    assert!(!parsed.has_char('B'));
    assert!(parsed.glyph('B').is_none());
    assert_eq!(parsed.glyph_count(), 0);
    assert!(!parsed.remove_glyph('B'));
}

#[test]
fn markers_depend_on_mode() {
    let g = glyph(vec![GlyphPart::FillMarker, GlyphPart::OutlineHole, GlyphPart::EndMarker]);
    let mut e = BufferTarget::new();
    g.render(&mut e, &RenderOptions::edit()).unwrap();
    assert_eq!(text(&e), vec!["@O&"]);
    let mut d = BufferTarget::new();
    g.render(&mut d, &RenderOptions::display()).unwrap();
    assert_eq!(text(&d), vec!["  "]);
}

#[test]
fn hard_blank_is_nbsp_in_edit_mode() {
    let g = glyph(vec![GlyphPart::HardBlank]);
    let mut e = BufferTarget::new();
    g.render(&mut e, &RenderOptions::edit()).unwrap();
    assert_eq!(e.lines[0][0].ch, '\u{a0}');
    let mut d = BufferTarget::new();
    g.render(&mut d, &RenderOptions::display()).unwrap();
    assert_eq!(d.lines[0][0].ch, ' ');
}

#[test]
fn outline_style_table_and_fallback() {
    assert_eq!(transform_outline(0, b'A'), '\u{2500}');
    assert_eq!(transform_outline(0, b'B'), '\u{2500}');
    assert_eq!(transform_outline(0, b'C'), '\u{2502}');
    assert_eq!(transform_outline(18, b'D'), '\u{258c}');
    assert_eq!(transform_outline(255, b'A'), 'A');
    assert_eq!(transform_outline(19, b'Q'), 'Q');
    assert_eq!(transform_outline(0, b'R'), ' ');
    assert_eq!(transform_outline(0, b'@'), ' ');
    let g = glyph(vec![
        GlyphPart::OutlinePlaceholder(b'A'),
        GlyphPart::OutlinePlaceholder(b'B'),
        GlyphPart::OutlinePlaceholder(b'C'),
    ]);
    let mut t = BufferTarget::new();
    let opts = RenderOptions { render_mode: RenderMode::Display, outline_style: 255 };
    g.render(&mut t, &opts).unwrap();
    assert_eq!(text(&t), vec!["ABC"]);
}

#[test]
fn color_nibbles_survive_round_trip() {
    let mut font = TdfFont::new("NIB", TdfFontType::Color, 0);
    font.add_glyph('C', glyph(vec![GlyphPart::AnsiChar { ch: 'A', fg: 0xA, bg: 0xB, blink: false }]));
    let parsed = TdfFont::load(&font.to_bytes().unwrap()).unwrap();
    let g = parsed[0].glyph('C').unwrap();
    assert_eq!(g.parts, vec![GlyphPart::AnsiChar { ch: 'A', fg: 0xA, bg: 0xB & 0x07, blink: false }]);
}

#[test]
fn color_hard_blank_and_skip_survive_round_trip() {
    let mut font = TdfFont::new("CHB", TdfFontType::Color, 0);
    let parts = vec![
        GlyphPart::HardBlank,
        GlyphPart::NewLine,
        GlyphPart::Skip,
        GlyphPart::AnsiChar { ch: 'x', fg: 3, bg: 2, blink: true },
        GlyphPart::EndMarker,
    ];
    font.add_glyph('H', Glyph { width: 2, height: 2, parts: parts.clone() });
    let bytes = font.to_bytes().unwrap();
    let tail = &bytes[bytes.len() - 11..];
    assert_eq!(tail, &[2, 2, 0xFF, 0, 13, b' ', 0, b'x', 0x80 | 0x20 | 3, b'&', 0]);
    let parsed = TdfFont::load(&bytes).unwrap();
    assert_eq!(parsed[0].glyph('H').unwrap().parts, parts);
}

#[test]
fn colors_are_masked_over_whole_glyphs() {
    let mut font = TdfFont::new("MASK", TdfFontType::Color, 0);
    font.add_glyph(
        'M',
        glyph(vec![
            GlyphPart::AnsiChar { ch: 'a', fg: 0x1A, bg: 0xFB, blink: false },
            GlyphPart::AnsiChar { ch: 'b', fg: 0x05, bg: 0x09, blink: true },
        ]),
    );
    let parsed = TdfFont::load(&font.to_bytes().unwrap()).unwrap();
    assert_eq!(
        parsed[0].glyph('M').unwrap().parts,
        vec![
            GlyphPart::AnsiChar { ch: 'a', fg: 0xA, bg: 0x3, blink: false },
            GlyphPart::AnsiChar { ch: 'b', fg: 0x5, bg: 0x1, blink: true },
        ]
    );
}

#[test]
fn colored_cells_in_block_font_take_one_byte() {
    let mut font = TdfFont::new("BC", TdfFontType::Block, 0);
    font.add_glyph(
        'A',
        glyph(vec![GlyphPart::AnsiChar { ch: 'q', fg: 1, bg: 2, blink: false }, GlyphPart::Char('r')]),
    );
    let parsed = TdfFont::load(&font.to_bytes().unwrap()).unwrap();
    assert_eq!(parsed[0].glyph('A').unwrap().parts, vec![GlyphPart::Char('q'), GlyphPart::Char('r')]);
}

#[test]
fn attribute_byte_layout() {
    let mut font = TdfFont::new("ATT", TdfFontType::Color, 0);
    font.add_glyph('C', glyph(vec![GlyphPart::AnsiChar { ch: 'A', fg: 0x1C, bg: 0x05, blink: true }]));
    let bytes = font.to_bytes().unwrap();
    // width, height, character, attribute, terminator
    let tail = &bytes[bytes.len() - 5..];
    assert_eq!(tail, &[1, 1, b'A', 0x80 | 0x50 | 0x0C, 0]);
}

#[test]
fn name_too_long_is_refused() {
    let font = TdfFont::new("THIRTEEN CHAR", TdfFontType::Block, 0);
    assert!(matches!(
        font.to_bytes(),
        Err(FontError::TdfNameTooLong { len: 13, max: 12 })
    ));
}

#[test]
fn unmapped_character_is_written_as_question_mark() {
    let mut font = TdfFont::new("Q", TdfFontType::Block, 0);
    font.add_glyph('A', glyph(vec![GlyphPart::Char('\u{4e2d}')]));
    let parsed = TdfFont::load(&font.to_bytes().unwrap()).unwrap();
    assert_eq!(parsed[0].glyph('A').unwrap().parts, vec![GlyphPart::Char('?')]);
}

fn header() -> Vec<u8> {
    let mut b = vec![19u8];
    b.extend_from_slice(b"TheDraw FONTS file");
    b.push(0x1A);
    b
}

#[test]
fn tdf_header_errors() {
    assert!(matches!(TdfFont::load(&[0u8; 5]), Err(FontError::TdfFileTooShort)));
    let mut b = header();
    b[0] = 18;
    assert!(matches!(
        TdfFont::load(&b),
        Err(FontError::TdfIdLengthMismatch { expected: 19, got: 18 })
    ));
    let mut b = header();
    b[1] = b't';
    assert!(matches!(TdfFont::load(&b), Err(FontError::TdfIdMismatch)));
    let mut b = header();
    b[19] = 0;
    assert!(matches!(TdfFont::load(&b), Err(FontError::TdfMissingCtrlZ)));
    assert_eq!(TdfFont::load(&header()).unwrap().len(), 0);
}

#[test]
fn tdf_font_errors() {
    let mut b = header();
    b.extend_from_slice(&[1, 2, 3, 4]);
    assert!(matches!(TdfFont::load(&b), Err(FontError::TdfFontIndicatorMismatch)));
    let mut b = header();
    b.extend_from_slice(&[0x55, 0xAA]);
    assert!(matches!(TdfFont::load(&b), Err(FontError::TdfTruncated { field: "indicator" })));
    let good = TdfFont::new("X", TdfFontType::Block, 0).to_bytes().unwrap();
    let mut bad_type = good.clone();
    bad_type[20 + 21] = 7;
    assert!(matches!(TdfFont::load(&bad_type), Err(FontError::TdfUnsupportedType(7))));
    let cut = &good[..20 + 30];
    assert!(matches!(TdfFont::load(cut), Err(FontError::TdfTruncated { field: "char table" })));
    let mut bad_offset = good.clone();
    bad_offset[20 + 25] = 5;
    bad_offset[20 + 26] = 0;
    assert!(matches!(
        TdfFont::load(&bad_offset),
        Err(FontError::TdfGlyphOutOfBounds { offset: 5, size: 0 })
    ));
}

#[test]
fn figlet_errors() {
    assert!(matches!(FigletFont::load(&[0x1F, 0x8B, 0]), Err(FontError::FigletGzipNotSupported)));
    assert!(matches!(FigletFont::load(b""), Err(FontError::FigletMissingHeader)));
    assert!(matches!(FigletFont::load(b"hello 1 2 3 4 5"), Err(FontError::FigletInvalidSignature)));
    assert!(matches!(FigletFont::load(b"flf2a$ 1 2"), Err(FontError::FigletIncompleteHeader)));
    assert!(matches!(FigletFont::load(b"flf2a$ x 2 3 4 5"), Err(FontError::FigletMissingHeight)));
    assert!(matches!(FigletFont::load(b"flf2a$ 1 1 1 -1 0\n\xff@@\n"), Err(FontError::Utf8(_))));
}

#[test]
fn figlet_missing_marker_is_an_error() {
    let src = "flf2a$ 2 2 4 -1 0\nab@\ncd\n";
    assert!(matches!(FigletFont::load(src.as_bytes()), Err(FontError::FigletMissingMarker)));
    // running out of lines is not an error: the font just has fewer glyphs
    let short = "flf2a$ 2 2 4 -1 0\nab@\ncd@@\nx@\n";
    let font = FigletFont::load(short.as_bytes()).unwrap();
    assert_eq!(font.glyph_count(), 1);
}

#[test]
fn figlet_utf8_error_reports_valid_prefix() {
    assert!(matches!(
        FigletFont::load(b"flf2a$ 1 1 1 -1 0\n\xff@@\n"),
        Err(FontError::Utf8(18))
    ));
}

#[test]
fn raw_char_width_counts_characters() {
    let mut font = FigletFont::new("W");
    font.add_raw_char(b'A', &["\u{e9}", "ab"]);
    assert_eq!(font.glyph('A').unwrap().width, 2);
    font.add_raw_char(b'B', &["\u{e9}"]);
    assert_eq!(font.glyph('B').unwrap().width, 1);
}

#[test]
fn bundle_error_names_first_long_name() {
    let fonts = vec![
        TdfFont::new("ok", TdfFontType::Block, 0),
        TdfFont::new("much too long name", TdfFontType::Block, 0),
        TdfFont::new("also far too long", TdfFontType::Block, 0),
    ];
    assert!(matches!(
        TdfFont::serialize_bundle(&fonts),
        Err(FontError::TdfNameTooLong { len: 18, max: 12 })
    ));
}

#[test]
fn figlet_parse_records_glyphs() {
    let src = "flf2a# 2 2 4 -1 0\r\nab@\r\na#@@\r\nx@\nyy@@\n";
    let font = FigletFont::load(src.as_bytes()).unwrap();
    assert_eq!(font.hard_blank, '#');
    assert_eq!(font.glyph_count(), 2);
    let sp = font.glyph(' ').unwrap();
    assert_eq!(sp.height, 2);
    assert_eq!(sp.width, 2);
    assert_eq!(
        sp.parts,
        vec![
            GlyphPart::Char('a'),
            GlyphPart::Char('b'),
            GlyphPart::NewLine,
            GlyphPart::Char('a'),
            GlyphPart::HardBlank
        ]
    );
    assert!(font.has_char('!'));
    assert!(!font.has_char('"'));
    assert_eq!(Font::Figlet(font).spacing(), Some(2));
}

#[test]
fn figlet_text_round_trip() {
    let mut font = FigletFont::new("W");
    font.add_raw_char(b'A', &["/\\", "$$"]);
    font.add_raw_char(b'B', &["|"]);
    let bytes = font.to_bytes().unwrap();
    let back = FigletFont::load(&bytes).unwrap();
    let a = back.glyph('A').unwrap();
    assert_eq!(a.parts, font.glyph('A').unwrap().parts);
    let b = back.glyph('B').unwrap();
    assert_eq!(b.height, 2);
    assert_eq!(b.parts[0], GlyphPart::Char('|'));
}

#[test]
fn figlet_from_zip_archive() {
    let flf = b"flf2a$ 1 1 1 -1 0\nq@@\n";
    let mut w = zip::ZipWriter::new(std::io::Cursor::new(Vec::new()));
    let opts = zip::write::SimpleFileOptions::default()
        .compression_method(zip::CompressionMethod::Stored);
    w.start_file("readme.txt", opts).unwrap();
    w.write_all(b"not a font").unwrap();
    w.start_file("small.flf", opts).unwrap();
    w.write_all(flf).unwrap();
    let archive = w.finish().unwrap().into_inner();
    let font = FigletFont::load(&archive).unwrap();
    assert_eq!(font.glyph(' ').unwrap().parts, vec![GlyphPart::Char('q')]);

    let mut w = zip::ZipWriter::new(std::io::Cursor::new(Vec::new()));
    w.start_file("readme.txt", opts).unwrap();
    w.write_all(b"no font here").unwrap();
    let archive = w.finish().unwrap().into_inner();
    assert!(matches!(FigletFont::load(&archive), Err(FontError::ZipNoFlf)));
    assert!(matches!(FigletFont::load(b"PK\x03\x04garbage"), Err(FontError::Zip(_))));
}

#[test]
fn max_height_and_sizes() {
    let mut font = TdfFont::new("H", TdfFontType::Block, 0);
    assert_eq!(font.max_height(), 1);
    font.add_glyph('A', Glyph { width: 3, height: 4, parts: vec![] });
    assert_eq!(font.max_height(), 4);
    assert_eq!(font.glyph_size('A'), Some((3, 4)));
    let f = Font::Tdf(font);
    assert_eq!(f.max_height(), 4);
    assert_eq!(f.glyph_size('A'), Some((3, 4)));
    assert_eq!(f.default_extension(), "tdf");
    let glyphs = match &f {
        Font::Tdf(t) => t.iter_glyphs(),
        Font::Figlet(_) => unreachable!(),
    };
    assert_eq!(glyphs.len(), 1);
    assert_eq!(glyphs[0].0, 'A');
}

#[test]
fn spacing_hints() {
    assert_eq!(TdfFont::new("s", TdfFontType::Block, -3).spacing(), Some(1));
    assert_eq!(TdfFont::new("s", TdfFontType::Block, 5).spacing(), Some(5));
    let mut fig = FigletFont::new("s");
    assert_eq!(fig.spacing(), None);
    fig.add_raw_char(b'A', &["abcd"]);
    fig.add_raw_char(b'B', &["ab"]);
    assert_eq!(fig.spacing(), Some(3));
}
