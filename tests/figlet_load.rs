use std::io::Write;

use retrofont::figlet::FigletFont;

/// A FIGlet font with the 95 required characters and one extra.
fn plain_font() -> Vec<u8> {
    let mut s = String::from("flf2a$ 2 2 8 -1 0\n");
    for code in 32u8..=126 {
        let c = if code == b'@' { 'a' } else { code as char };
        s.push_str(&format!("{c}$@\n{c}{c}@@\n"));
    }
    s.push_str("++@\n++@@\n");
    s.into_bytes()
}

fn zipped(content: &[u8]) -> Vec<u8> {
    let mut w = zip::ZipWriter::new(std::io::Cursor::new(Vec::new()));
    let opts = zip::write::SimpleFileOptions::default()
        .compression_method(zip::CompressionMethod::Stored);
    w.start_file("doom.flf", opts).unwrap();
    w.write_all(content).unwrap();
    w.finish().unwrap().into_inner()
}

#[test]
fn test_zipped_equals_plain() {
    let plain = plain_font();
    let test_font = FigletFont::load(&plain).unwrap();
    let zipped_font = FigletFont::load(&zipped(&plain)).unwrap();
    assert_eq!(test_font.header, zipped_font.header);
    assert_eq!(test_font.glyph_count(), zipped_font.glyph_count());
    let doom_font_glyph_count = 96;
    assert_eq!(doom_font_glyph_count, test_font.glyph_count());
}
