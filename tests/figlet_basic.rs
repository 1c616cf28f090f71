use retrofont::figlet::FigletFont;
use retrofont::test_support::BufferTarget;
use retrofont::{Font, GlyphPart, RenderOptions};

fn lines(buf: &BufferTarget) -> Vec<String> {
    buf.lines
        .iter()
        .map(|l| l.iter().map(|c| c.ch).collect())
        .collect()
}

#[test]
fn figlet_basic_figlet_basic_render() {
    let mut font: FigletFont = FigletFont::new("FIG");
    font.add_raw_char(b'A', &["AA", "AA"]);
    let mut target = BufferTarget::new();
    Font::Figlet(font)
        .render_glyph(&mut target, 'A', &RenderOptions::default())
        .unwrap();
    assert_eq!(lines(&target), vec!["AA", "AA"]);
}

#[test]
fn basic_figlet_basic_render() {
    let mut font = FigletFont::new("FIG");
    font.add_raw_char(b'A', &["AA", "AA"]);
    let mut target = BufferTarget::new();
    Font::Figlet(font)
        .render_glyph(&mut target, 'A', &RenderOptions::display())
        .unwrap();
    assert_eq!(lines(&target), vec!["AA".to_string(), "AA".to_string()]);
}

#[test]
fn figlet_newline_height() {
    let mut font = FigletFont::new("FIG2");
    font.add_raw_char(b'B', &["B", "B", "B"]);
    let mut target = BufferTarget::new();
    Font::Figlet(font)
        .render_glyph(&mut target, 'B', &RenderOptions::default())
        .unwrap();
    assert_eq!(lines(&target).len(), 3);
}

#[test]
fn figlet_newline_parsing() {
    let mut font = FigletFont::new("FIG2");
    font.add_raw_char(b'B', &["B", "B", "B"]);
    let g = font.glyph('B').unwrap();
    assert!(g.parts.contains(&GlyphPart::NewLine));
    assert_eq!(g.height, 3);
}

#[test]
fn figlet_edit_equals_display() {
    let mut font = FigletFont::new("FIG3");
    font.add_raw_char(b'C', &["C@", "CO"]);
    let mut d = BufferTarget::new();
    Font::Figlet(font.clone())
        .render_glyph(&mut d, 'C', &RenderOptions::default())
        .unwrap();
    let mut e = BufferTarget::new();
    Font::Figlet(font)
        .render_glyph(&mut e, 'C', &RenderOptions::edit())
        .unwrap();
    assert_eq!(lines(&d), lines(&e));
}

#[test]
fn figlet_render_edit_mode_same_as_display() {
    let mut font = FigletFont::new("FIG3");
    font.add_raw_char(b'C', &["C@", "CO"]);
    let mut d = BufferTarget::new();
    let mut e = BufferTarget::new();
    Font::Figlet(font.clone())
        .render_glyph(&mut d, 'C', &RenderOptions::display())
        .unwrap();
    Font::Figlet(font)
        .render_glyph(&mut e, 'C', &RenderOptions::edit())
        .unwrap();
    assert_eq!(lines(&d), lines(&e));
}
