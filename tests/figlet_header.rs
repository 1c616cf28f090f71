use retrofont::figlet::FigletFont;

#[test]
fn test_header() {
    let input = "flf2a$ 6 5 20 15 0 0 143 229";
    let font = FigletFont::load(input.as_bytes()).unwrap();
    assert_eq!(font.hard_blank, '$');
    assert_eq!(font.header, input);
    assert!(font.comments.is_empty());
    assert_eq!(font.glyph_count(), 0);
}

#[test]
fn test_header_no_codetag() {
    let input = "flf2a$ 6 5 20 15 0 0 143";
    let font = FigletFont::load(input.as_bytes()).unwrap();
    assert_eq!(font.hard_blank, '$');
    assert_eq!(font.header, input);
    assert!(font.comments.is_empty());
}

#[test]
fn test_header_no_full_layout() {
    let input = "flf2a$ 6 5 20 15 0 0";
    let font = FigletFont::load(input.as_bytes()).unwrap();
    assert_eq!(font.hard_blank, '$');
    assert_eq!(font.header, input);
    assert!(font.comments.is_empty());
}

#[test]
fn test_comments() {
    let input = "flf2a$ 6 5 20 15 3 0 143 229\nfoo\nbar\nbaz";
    let font = FigletFont::load(input.as_bytes()).unwrap();
    assert_eq!(font.comments.join("\n"), "foo\nbar\nbaz");
}

#[test]
fn test_header_generation() {
    let input = "flf2a$ 6 5 20 15 0 0 143 229";
    let font = FigletFont::load(input.as_bytes()).unwrap();
    let generated = String::from_utf8(font.to_bytes().unwrap()).unwrap();
    let first = generated.lines().next().unwrap();
    assert_eq!(first, "flf2a$ 1 1 80 -1 0");
    let reparsed = FigletFont::load(generated.as_bytes()).unwrap();
    assert_eq!(reparsed.hard_blank, font.hard_blank);
}

#[test]
fn test_header_generation_comments() {
    let input = "flf2a$ 6 5 20 15 3 0 143 229\nfoo\nbar\nbaz";
    let font = FigletFont::load(input.as_bytes()).unwrap();
    let generated = String::from_utf8(font.to_bytes().unwrap()).unwrap();
    assert!(generated.starts_with("flf2a$ 1 1 80 -1 3\nfoo\nbar\nbaz\n"));
    let reparsed = FigletFont::load(generated.as_bytes()).unwrap();
    assert_eq!(reparsed.comments, font.comments);
}
