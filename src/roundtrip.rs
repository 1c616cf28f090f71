//! What serialising and parsing TDF data preserve.
use vstd::prelude::*;

use crate::codepage::{cp437, cp437_byte};
use crate::tdf::{
    fonts_bytes, fonts_match, font_type_of, load_matches, parse_bundle, parse_fonts_from, tdf_header,
    tdf_signature,
};
use vstd::utf8::{decode_utf8, encode_utf8_decode_utf8, encode_utf8_valid_utf8, valid_utf8};
use crate::error::FontError;
use crate::glyph::{GlyphModel, GlyphPart};
use crate::tdf::{
    attr_byte, color_part, decode_glyph_at, decode_parts, encode_glyph, encode_part, encode_parts,
    first_bad_offset, first_zero, le16, le16_bytes, parse_font_at, source_glyph,
    type_byte, FontRec, TdfFont, TdfFontType, CHAR_TABLE_SIZE, INVALID_GLYPH,
};

verus! {

/// Whether a character survives the code page: it maps to a byte that maps back to it.
pub open spec fn in_code_page(c: char) -> bool {
    cp437_byte(c) != 0 && cp437(cp437_byte(c)) == c
}

/// Whether a part is written in a way that parsing a font of type `ft` reads back:
/// a plain character must not be written as a byte that the type reads as a
/// marker, a colored one needs a color font, an outline marker needs an outline
/// font, and a hard blank has no outline encoding.
pub open spec fn part_encodable(p: GlyphPart, ft: TdfFontType) -> bool {
    match p {
        GlyphPart::NewLine => true,
        GlyphPart::EndMarker => true,
        GlyphPart::HardBlank => ft != TdfFontType::Outline,
        GlyphPart::Skip => true,
        GlyphPart::FillMarker => ft == TdfFontType::Outline,
        GlyphPart::OutlineHole => ft == TdfFontType::Outline,
        GlyphPart::OutlinePlaceholder(b) => ft == TdfFontType::Outline && 65 <= b && b <= 82 && b != 79,
        GlyphPart::Char(c) => {
            let b = cp437_byte(c);
            &&& ft != TdfFontType::Color
            &&& in_code_page(c)
            &&& b != 13 && b != 38 && b != 32
            &&& (ft == TdfFontType::Block ==> b != 255)
            &&& (ft == TdfFontType::Outline ==> b != 64 && b != 79 && !(65 <= b && b <= 82))
        },
        GlyphPart::AnsiChar { ch, .. } => {
            let b = cp437_byte(ch);
            &&& ft == TdfFontType::Color
            &&& in_code_page(ch)
            &&& b != 13 && b != 38 && b != 32 && b != 255
        },
    }
}

/// Whether every part of a sequence is encodable.
pub open spec fn parts_encodable(ps: Seq<GlyphPart>, ft: TdfFontType) -> bool {
    forall|i: int| 0 <= i < ps.len() ==> #[trigger] part_encodable(ps[i], ft)
}

/// Whether a glyph is written in a way that parsing reads back: its parts are
/// encodable and its width and height fit a byte.
pub open spec fn glyph_encodable(g: GlyphModel, ft: TdfFontType) -> bool {
    g.0 <= 255 && g.1 <= 255 && parts_encodable(g.2, ft)
}

/// A part as the attribute byte keeps it: a colored cell's foreground to its low
/// four bits, its background to its low three bits.
pub open spec fn mask_part(p: GlyphPart) -> GlyphPart {
    match p {
        GlyphPart::AnsiChar { ch, fg, bg, blink } => GlyphPart::AnsiChar {
            ch,
            fg: fg % 16,
            bg: bg % 8,
            blink,
        },
        _ => p,
    }
}

/// Each part as the attribute byte keeps it.
pub open spec fn mask_parts(ps: Seq<GlyphPart>) -> Seq<GlyphPart> {
    Seq::new(ps.len(), |i: int| mask_part(ps[i]))
}

/// A glyph with its parts as the attribute byte keeps them.
pub open spec fn mask_glyph(g: Option<GlyphModel>) -> Option<GlyphModel> {
    match g {
        Some(m) => Some((m.0, m.1, mask_parts(m.2))),
        None => None,
    }
}

/// Whether a part's colors fit the attribute byte: foreground below 16,
/// background below 8.
pub open spec fn part_in_range(p: GlyphPart) -> bool {
    match p {
        GlyphPart::AnsiChar { fg, bg, .. } => fg < 16 && bg < 8,
        _ => true,
    }
}

/// Whether every colored cell of a glyph has colors that fit the attribute byte.
pub open spec fn colors_in_range(g: Option<GlyphModel>) -> bool {
    match g {
        Some(m) => forall|i: int| 0 <= i < m.2.len() ==> #[trigger] part_in_range(m.2[i]),
        None => true,
    }
}

/// Masking leaves a glyph whose colors fit the attribute byte unchanged.
pub proof fn lemma_mask_in_range(g: Option<GlyphModel>)
    requires
        colors_in_range(g),
    ensures
        mask_glyph(g) == g,
{
    if let Some(m) = g {
        assert forall|i: int| 0 <= i < m.2.len() implies #[trigger] mask_parts(m.2)[i] == m.2[i] by {
            assert(part_in_range(m.2[i]));
        }
        assert(mask_parts(m.2) =~= m.2);
    }
}

/// The attribute byte keeps the low four bits of the foreground, the low three
/// of the background and the blink flag.
pub proof fn lemma_attr_byte(fg: u8, bg: u8, blink: bool)
    ensures
        attr_byte(fg, bg, blink) % 16 == fg % 16,
        (attr_byte(fg, bg, blink) / 16) % 8 == bg % 8,
        (attr_byte(fg, bg, blink) >= 128) == blink,
{
    let v: int = (bg % 8) * 16 + fg % 16 + if blink { 128int } else { 0int };
    assert(0 <= v < 256);
    assert(attr_byte(fg, bg, blink) == v);
}

/// A colored cell written and read back keeps its character and blink flag,
/// its foreground's low nibble and its background's low three bits.
pub proof fn lemma_color_cell_round_trip(ch: char, fg: u8, bg: u8, blink: bool)
    requires
        in_code_page(ch),
        cp437_byte(ch) != 32,
        cp437_byte(ch) != 255,
    ensures
        color_part(cp437_byte(ch), attr_byte(fg, bg, blink)) == (GlyphPart::AnsiChar {
            ch,
            fg: fg % 16,
            bg: bg % 8,
            blink,
        }),
{
    lemma_attr_byte(fg, bg, blink);
}

/// The bytes of a part sequence, first part first.
pub proof fn lemma_encode_parts_front(ps: Seq<GlyphPart>, ft: TdfFontType)
    requires
        ps.len() > 0,
    ensures
        encode_parts(ps, ft) == encode_part(ps[0], ft) + encode_parts(ps.skip(1), ft),
    decreases ps.len(),
{
    if ps.len() == 1 {
        assert(ps.drop_last() =~= Seq::<GlyphPart>::empty());
        assert(ps.skip(1) =~= Seq::<GlyphPart>::empty());
        assert(encode_parts(ps.skip(1), ft) =~= Seq::<u8>::empty());
        assert(encode_parts(ps.drop_last(), ft) =~= Seq::<u8>::empty());
        assert(encode_parts(ps, ft) =~= encode_part(ps[0], ft) + encode_parts(ps.skip(1), ft));
    } else {
        lemma_encode_parts_front(ps.drop_last(), ft);
        assert(ps.drop_last().skip(1) =~= ps.skip(1).drop_last());
        assert(ps.skip(1).last() == ps.last());
        assert(encode_parts(ps, ft) =~= encode_part(ps[0], ft) + encode_parts(ps.skip(1), ft));
    }
}

/// An encodable part is read back from its bytes, its colors masked, and the
/// reader moves past them.
pub proof fn lemma_decode_part(b: Seq<u8>, ft: TdfFontType, p: int, end: int, x: GlyphPart)
    requires
        part_encodable(x, ft),
        0 <= p,
        p + encode_part(x, ft).len() < end <= b.len(),
        b.subrange(p, p + encode_part(x, ft).len()) == encode_part(x, ft),
    ensures
        decode_parts(b, ft, p, end) == seq![mask_part(x)] + decode_parts(
            b,
            ft,
            p + encode_part(x, ft).len(),
            end,
        ),
{
    let e = encode_part(x, ft);
    assert(b[p] == e[0]) by {
        assert(b.subrange(p, p + e.len())[0] == b[p]);
    }
    if e.len() == 2 {
        assert(b[p + 1] == e[1]) by {
            assert(b.subrange(p, p + e.len())[1] == b[p + 1]);
        }
    }
    match x {
        GlyphPart::AnsiChar { ch, fg, bg, blink } => {
            lemma_color_cell_round_trip(ch, fg, bg, blink);
            assert(color_part(b[p], b[p + 1]) == mask_part(x));
            assert(seq![color_part(b[p], b[p + 1])] =~= seq![mask_part(x)]);
        },
        _ => {},
    }
}

/// Encodable parts are read back from their bytes up to the terminating zero,
/// their colors masked.
pub proof fn lemma_decode_parts(b: Seq<u8>, ft: TdfFontType, p: int, end: int, ps: Seq<GlyphPart>)
    requires
        parts_encodable(ps, ft),
        0 <= p,
        p + encode_parts(ps, ft).len() < end <= b.len(),
        b.subrange(p, p + encode_parts(ps, ft).len()) == encode_parts(ps, ft),
        b[p + encode_parts(ps, ft).len()] == 0,
    ensures
        decode_parts(b, ft, p, end) == mask_parts(ps),
    decreases ps.len(),
{
    if ps.len() == 0 {
        assert(encode_parts(ps, ft) =~= Seq::<u8>::empty());
        assert(decode_parts(b, ft, p, end) =~= mask_parts(ps));
    } else {
        lemma_encode_parts_front(ps, ft);
        let x = ps[0];
        let rest = ps.skip(1);
        let ex = encode_part(x, ft);
        let er = encode_parts(rest, ft);
        assert(part_encodable(x, ft));
        assert(parts_encodable(rest, ft)) by {
            assert forall|i: int| 0 <= i < rest.len() implies #[trigger] part_encodable(rest[i], ft) by {
                assert(rest[i] == ps[i + 1]);
            }
        }
        assert(b.subrange(p, p + ex.len()) =~= ex) by {
            assert forall|k: int| 0 <= k < ex.len() implies b.subrange(p, p + ex.len())[k] == ex[k] by {
                assert(b.subrange(p, p + encode_parts(ps, ft).len())[k] == encode_parts(ps, ft)[k]);
            }
        }
        assert(b.subrange(p + ex.len(), p + ex.len() + er.len()) =~= er) by {
            assert forall|k: int| 0 <= k < er.len() implies b.subrange(
                p + ex.len(),
                p + ex.len() + er.len(),
            )[k] == er[k] by {
                assert(b.subrange(p, p + encode_parts(ps, ft).len())[ex.len() + k] == encode_parts(
                    ps,
                    ft,
                )[ex.len() + k]);
            }
        }
        lemma_decode_part(b, ft, p, end, x);
        lemma_decode_parts(b, ft, p + ex.len(), end, rest);
        assert(decode_parts(b, ft, p, end) =~= mask_parts(ps));
    }
}

/// Whether a font's bytes parse back as one font: a name of at most 12 bytes
/// without a zero byte, and a glyph block that its 16-bit size field can hold.
pub open spec fn font_layout_ok(f: &TdfFont) -> bool {
    &&& f.name_bytes().len() <= 12
    &&& forall|k: int| 0 <= k < f.name_bytes().len() ==> #[trigger] f.name_bytes()[k] != 0
    &&& f.block_upto(CHAR_TABLE_SIZE as int).len() < 65536
}

/// Whether a font is written in a way that parsing reads back unchanged: its
/// layout parses back and every glyph is encodable.
pub open spec fn font_encodable(f: &TdfFont) -> bool {
    &&& font_layout_ok(f)
    &&& forall|i: int|
        0 <= i < CHAR_TABLE_SIZE ==> (#[trigger] f.glyph_at(i) matches Some(g) ==> glyph_encodable(
            g,
            f.font_type,
        ))
}

/// The lookup entry that the serialiser writes for slot `i`.
pub open spec fn lookup_entry(f: &TdfFont, i: int) -> Seq<u8> {
    match f.glyph_at(i) {
        Some(_) => le16_bytes(f.block_upto(i).len() as u16),
        None => seq![255u8, 255u8],
    }
}

proof fn lemma_block_prefix(f: &TdfFont, m: int, n: int)
    requires
        0 <= m <= n,
    ensures
        f.block_upto(m).len() <= f.block_upto(n).len(),
        f.block_upto(n).subrange(0, f.block_upto(m).len() as int) == f.block_upto(m),
    decreases n - m,
{
    if m < n {
        lemma_block_prefix(f, m, n - 1);
        let a = f.block_upto(n - 1);
        let c = f.block_upto(m);
        assert(f.block_upto(n).subrange(0, c.len() as int) =~= a.subrange(0, c.len() as int));
    } else {
        assert(f.block_upto(n).subrange(0, f.block_upto(n).len() as int) =~= f.block_upto(n));
    }
}

proof fn lemma_lookup_prefix(f: &TdfFont, m: int, n: int)
    requires
        0 <= m <= n,
    ensures
        f.lookup_upto(n).len() == 2 * n,
        f.lookup_upto(n).subrange(0, 2 * m) == f.lookup_upto(m),
    decreases n - m,
{
    if m < n {
        lemma_lookup_prefix(f, m, n - 1);
        lemma_lookup_prefix(f, n - 1, n - 1);
        let a = f.lookup_upto(n - 1);
        assert(f.lookup_upto(n).subrange(0, 2 * m) =~= a.subrange(0, 2 * m));
    } else {
        lemma_lookup_len(f, n);
        assert(f.lookup_upto(n).subrange(0, 2 * n) =~= f.lookup_upto(n));
    }
}

proof fn lemma_lookup_len(f: &TdfFont, n: int)
    requires
        0 <= n,
    ensures
        f.lookup_upto(n).len() == 2 * n,
    decreases n,
{
    if n > 0 {
        lemma_lookup_len(f, n - 1);
    }
}

/// Where slot `i`'s entry stands in the lookup table, and where its glyph stands
/// in the glyph block.
proof fn lemma_slot_layout(f: &TdfFont, i: int)
    requires
        0 <= i < CHAR_TABLE_SIZE,
    ensures
        f.lookup_upto(CHAR_TABLE_SIZE as int).len() == 2 * CHAR_TABLE_SIZE,
        f.lookup_upto(CHAR_TABLE_SIZE as int)[2 * i] == lookup_entry(f, i)[0],
        f.lookup_upto(CHAR_TABLE_SIZE as int)[2 * i + 1] == lookup_entry(f, i)[1],
        f.glyph_at(i) matches Some(g) ==> {
            let at = f.block_upto(i).len() as int;
            let blk = f.block_upto(CHAR_TABLE_SIZE as int);
            &&& at + encode_glyph(g, f.font_type).len() <= blk.len()
            &&& blk.subrange(at, at + encode_glyph(g, f.font_type).len()) == encode_glyph(g, f.font_type)
        },
{
    let n = CHAR_TABLE_SIZE as int;
    lemma_lookup_prefix(f, i + 1, n);
    lemma_lookup_prefix(f, i, i);
    let l1 = f.lookup_upto(i + 1);
    assert(l1 == f.lookup_upto(i) + lookup_entry(f, i));
    assert(f.lookup_upto(n).subrange(0, 2 * (i + 1))[2 * i] == f.lookup_upto(n)[2 * i]);
    assert(f.lookup_upto(n).subrange(0, 2 * (i + 1))[2 * i + 1] == f.lookup_upto(n)[2 * i + 1]);
    assert(l1[2 * i] == lookup_entry(f, i)[0]);
    assert(l1[2 * i + 1] == lookup_entry(f, i)[1]);
    lemma_block_prefix(f, i + 1, n);
    match f.glyph_at(i) {
        Some(g) => {
            let at = f.block_upto(i).len() as int;
            let blk = f.block_upto(n);
            let e = encode_glyph(g, f.font_type);
            let b1 = f.block_upto(i + 1);
            assert(b1 == f.block_upto(i) + e);
            assert(blk.subrange(at, at + e.len()) =~= e) by {
                assert forall|k: int| 0 <= k < e.len() implies blk.subrange(at, at + e.len())[k]
                    == e[k] by {
                    assert(blk.subrange(0, b1.len() as int)[at + k] == b1[at + k]);
                }
            }
        },
        None => {},
    }
}

proof fn lemma_first_zero_name(s: Seq<u8>, nb: Seq<u8>, i: int)
    requires
        s.len() == 12,
        nb.len() <= 12,
        s.subrange(0, nb.len() as int) == nb,
        forall|k: int| nb.len() <= k < 12 ==> s[k] == 0,
        forall|k: int| 0 <= k < nb.len() ==> #[trigger] nb[k] != 0,
        0 <= i <= nb.len(),
    ensures
        first_zero(s, i) == nb.len(),
    decreases nb.len() - i,
{
    if i < nb.len() {
        assert(s[i] == s.subrange(0, nb.len() as int)[i]);
        assert(nb[i] != 0);
        lemma_first_zero_name(s, nb, i + 1);
    }
}

proof fn lemma_no_bad_offset(lookup: Seq<u16>, size: int, i: int)
    requires
        0 <= i,
        forall|j: int| 0 <= j < lookup.len() && #[trigger] lookup[j] != INVALID_GLYPH ==> lookup[j] < size,
    ensures
        first_bad_offset(lookup, size, i) is None,
    decreases lookup.len() - i,
{
    if i < lookup.len() {
        lemma_no_bad_offset(lookup, size, i + 1);
    }
}

proof fn lemma_le16_bytes(v: u16)
    ensures
        le16(le16_bytes(v), 0) == v,
{
    assert((v % 256) + 256 * (v / 256) == v) by (nonlinear_arith);
}

/// The bytes of a font that the serialiser writes are parsed back, wherever in a
/// buffer they stand: the same name bytes, type and spacing, a lookup entry for
/// exactly the slots that have a glyph, and the same glyph in each slot.
pub proof fn lemma_parse_font_bytes(b: Seq<u8>, o: int, f: &TdfFont)
    requires
        font_layout_ok(f),
        0 <= o,
        o + f.font_bytes().len() <= b.len(),
        b.subrange(o, o + f.font_bytes().len()) == f.font_bytes(),
    ensures
        parse_font_at(b, o) matches Ok((rec, next)) && {
            &&& next == o + f.font_bytes().len()
            &&& rec.0 == f.name_bytes()
            &&& rec.1 == f.font_type
            &&& rec.2 == f.spacing as u8
            &&& forall|i: int|
                0 <= i < CHAR_TABLE_SIZE ==> (#[trigger] rec.5[i] != INVALID_GLYPH) == (
                f.glyph_at(i) is Some)
            &&& font_encodable(f) ==> forall|i: int|
                0 <= i < CHAR_TABLE_SIZE ==> #[trigger] source_glyph(b, rec.1, rec.3, rec.4, rec.5, i)
                    == mask_glyph(f.glyph_at(i))
        },
{
    let n = CHAR_TABLE_SIZE as int;
    let fb = f.font_bytes();
    let nb = f.name_bytes();
    let blk = f.block_upto(n);
    let lk = f.lookup_upto(n);
    let size = blk.len() as int;
    let v = blk.len() as u16;
    lemma_lookup_len(f, n);
    let head = seq![0x55u8, 0xAAu8, 0u8, 0xFFu8, 12u8];
    let pad = Seq::new((12 - nb.len()) as nat, |i: int| 0u8);
    let fields = seq![0u8, 0u8, 0u8, 0u8, type_byte(f.font_type), f.spacing as u8];
    let size_bytes = le16_bytes(v);
    assert(fb == head + nb + pad + fields + size_bytes + lk + blk);
    assert(fb.len() == 213 + size);
    assert forall|k: int| 0 <= k < fb.len() implies #[trigger] b[o + k] == fb[k] by {
        assert(b.subrange(o, o + fb.len())[k] == b[o + k]);
    }
    // fixed fields
    assert(b[o] == 0x55 && b[o + 1] == 0xAA && b[o + 2] == 0 && b[o + 3] == 0xFF) by {
        assert(b[o + 0] == fb[0]);
        assert(b[o + 1] == fb[1]);
        assert(b[o + 2] == fb[2]);
        assert(b[o + 3] == fb[3]);
    }
    assert(b[o + 4] == 12) by {
        assert(b[o + 4] == fb[4]);
    }
    // name
    let raw = b.subrange(o + 5, o + 17);
    assert(raw.subrange(0, nb.len() as int) =~= nb) by {
        assert forall|k: int| 0 <= k < nb.len() implies raw.subrange(0, nb.len() as int)[k] == nb[k] by {
            assert(b[o + (5 + k)] == fb[5 + k]);
        }
    }
    assert forall|k: int| nb.len() <= k < 12 implies raw[k] == 0 by {
        assert(b[o + (5 + k)] == fb[5 + k]);
    }
    lemma_first_zero_name(raw, nb, 0);
    assert(raw.subrange(0, first_zero(raw, 0)) == nb);
    // type, spacing, size
    let t = o + 21;
    assert(b[t] == type_byte(f.font_type)) by {
        assert(b[o + 21] == fb[21]);
    }
    assert(b[t + 1] == f.spacing as u8) by {
        assert(b[o + 22] == fb[22]);
    }
    assert(font_type_of(b[t]) == f.font_type);
    assert(le16(b, t + 2) == size) by {
        assert(b[o + 23] == fb[23]);
        assert(b[o + 24] == fb[24]);
        lemma_le16_bytes(v);
    }
    // lookup table
    let lt = t + 4;
    let lookup = Seq::new(94, |i: int| le16(b, lt + 2 * i) as u16);
    assert forall|i: int| 0 <= i < n implies (#[trigger] lookup[i] != INVALID_GLYPH) == (f.glyph_at(
        i,
    ) is Some) && (f.glyph_at(i) is Some ==> lookup[i] == f.block_upto(i).len() && f.block_upto(i).len()
        + 3 <= size) by {
        lemma_slot_layout(f, i);
        assert(b[o + (25 + 2 * i)] == fb[25 + 2 * i]);
        assert(b[o + (25 + 2 * i + 1)] == fb[25 + 2 * i + 1]);
        assert(b[lt + 2 * i] == lk[2 * i]);
        assert(b[lt + 2 * i + 1] == lk[2 * i + 1]);
        match f.glyph_at(i) {
            Some(g) => {
                lemma_block_prefix(f, i, n);
                let w = f.block_upto(i).len() as u16;
                assert(f.block_upto(i).len() + encode_glyph(g, f.font_type).len() <= size);
                assert(w == f.block_upto(i).len());
                lemma_le16_bytes(w);
                assert(le16(b, lt + 2 * i) == w);
            },
            None => {
                assert(le16(b, lt + 2 * i) == 65535);
            },
        }
    }
    let base = lt + 188;
    lemma_no_bad_offset(lookup, size, 0);
    // glyphs
    assert forall|i: int| 0 <= i < n && font_encodable(f) implies source_glyph(b, f.font_type, base, base + size, lookup, i)
        == mask_glyph(f.glyph_at(i)) by {
        match f.glyph_at(i) {
            Some(g) => {
                lemma_slot_layout(f, i);
                let at = f.block_upto(i).len() as int;
                let e = encode_glyph(g, f.font_type);
                let ep = encode_parts(g.2, f.font_type);
                let q = base + at;
                assert(lookup[i] == at);
                assert forall|k: int| 0 <= k < e.len() implies #[trigger] b[q + k] == e[k] by {
                    assert(b[o + (213 + at + k)] == fb[213 + at + k]);
                    assert(blk.subrange(at, at + e.len())[k] == blk[at + k]);
                }
                assert(glyph_encodable(g, f.font_type));
                assert(b[q] == g.0 as u8) by {
                    assert(b[q + 0] == e[0]);
                }
                assert(b[q + 1] == g.1 as u8) by {
                    assert(b[q + 1] == e[1]);
                }
                assert(b.subrange(q + 2, q + 2 + ep.len()) =~= ep) by {
                    assert forall|k: int| 0 <= k < ep.len() implies b.subrange(q + 2, q + 2 + ep.len())[k]
                        == ep[k] by {
                        assert(b[q + (2 + k)] == e[2 + k]);
                    }
                }
                assert(b[q + 2 + ep.len()] == 0) by {
                    assert(b[q + (2 + ep.len())] == e[2 + ep.len() as int]);
                }
                lemma_decode_parts(b, f.font_type, q + 2, base + size, g.2);
                assert(decode_glyph_at(b, f.font_type, q, base + size) == (g.0, g.1, mask_parts(g.2)));
            },
            None => {},
        }
    }
    assert(parse_font_at(b, o) == Ok::<(FontRec, int), crate::error::FontError>(
        ((nb, f.font_type, f.spacing as u8, base, base + size, lookup), base + size),
    ));
}

proof fn lemma_header_ok(b: Seq<u8>)
    requires
        b.len() >= 20,
        b.subrange(0, 20) == tdf_header(),
    ensures
        parse_bundle(b) == parse_fonts_from(b, 20),
{
    let h = tdf_header();
    assert(b[0] == h[0]) by {
        assert(b.subrange(0, 20)[0] == b[0]);
    }
    assert(b[19] == h[19]) by {
        assert(b.subrange(0, 20)[19] == b[19]);
    }
    assert(b.subrange(1, 19) =~= tdf_signature()) by {
        assert forall|k: int| 0 <= k < 18 implies b.subrange(1, 19)[k] == tdf_signature()[k] by {
            assert(b.subrange(0, 20)[1 + k] == h[1 + k]);
        }
    }
}

/// Round trip: a font built by hand and written with `to_bytes` loads back as
/// one font with the same name and type and, in every slot, the same glyph with
/// each colored cell's foreground kept to its low four bits and background to its
/// low three: the very same glyph where the colors fit.
pub proof fn law_round_trip(f: &TdfFont)
    requires
        f.overlay_only(),
        font_encodable(f),
    ensures
        forall|r: Result<Vec<TdfFont>, FontError>|
            #![trigger load_matches(r, tdf_header() + f.font_bytes())]
            load_matches(r, tdf_header() + f.font_bytes()) ==> (r matches Ok(v) && v@.len() == 1
                && {
                let p = v@[0];
                &&& p.name@ == f.name@
                &&& p.font_type == f.font_type
                &&& forall|i: int|
                    0 <= i < CHAR_TABLE_SIZE ==> #[trigger] p.glyph_at(i) == mask_glyph(f.glyph_at(i))
                        && p.has(i) == f.has(i) && (colors_in_range(f.glyph_at(i)) ==> p.glyph_at(i)
                        == f.glyph_at(i))
            }),
{
    let fb = f.font_bytes();
    let b = tdf_header() + fb;
    assert(b.subrange(20, 20 + fb.len() as int) =~= fb);
    assert(b.subrange(0, 20) =~= tdf_header());
    lemma_parse_font_bytes(b, 20, f);
    lemma_header_ok(b);
    let (rec, next) = parse_font_at(b, 20)->Ok_0;
    assert(parse_fonts_from(b, next) == Ok::<Seq<FontRec>, FontError>(Seq::empty()));
    assert(parse_bundle(b) == Ok::<Seq<FontRec>, FontError>(seq![rec] + Seq::<FontRec>::empty()));
    assert(seq![rec] + Seq::<FontRec>::empty() =~= seq![rec]);
    encode_utf8_valid_utf8(f.name@);
    encode_utf8_decode_utf8(f.name@);
    assert forall|i: int| 0 <= i < CHAR_TABLE_SIZE implies #[trigger] f.has(i) == (f.glyph_at(i) is Some) by {
        f.lemma_overlay_has(i);
    }
    assert forall|r: Result<Vec<TdfFont>, FontError>| load_matches(r, b) implies (r matches Ok(v)
        && v@.len() == 1 && {
        let p = v@[0];
        &&& p.name@ == f.name@
        &&& p.font_type == f.font_type
        &&& forall|i: int|
            0 <= i < CHAR_TABLE_SIZE ==> #[trigger] p.glyph_at(i) == mask_glyph(f.glyph_at(i)) && p.has(i)
                == f.has(i) && (colors_in_range(f.glyph_at(i)) ==> p.glyph_at(i) == f.glyph_at(i))
    }) by {
        match r {
            Ok(v) => {
                let p = v@[0];
                assert(parse_bundle(b) == Ok::<Seq<FontRec>, FontError>(seq![rec]));
                assert(fonts_match(v@, b, seq![rec]));
                assert(seq![rec][0] == rec);
                assert(p.matches_rec(b, rec));
                assert forall|i: int| 0 <= i < CHAR_TABLE_SIZE implies #[trigger] p.glyph_at(i)
                    == mask_glyph(f.glyph_at(i)) && p.has(i) == f.has(i) && (colors_in_range(
                    f.glyph_at(i),
                ) ==> p.glyph_at(i) == f.glyph_at(i)) by {
                    assert(p.has(i) == (rec.5[i] != INVALID_GLYPH));
                    assert(f.has(i) == (f.glyph_at(i) is Some));
                    if colors_in_range(f.glyph_at(i)) {
                        lemma_mask_in_range(f.glyph_at(i));
                    }
                }
            },
            Err(_) => {},
        }
    }
}

/// Round trip of name and type: a font written with `to_bytes` loads back as one
/// font with the same name and type, whatever its glyphs hold.
pub proof fn law_round_trip_name_type(f: &TdfFont)
    requires
        font_layout_ok(f),
    ensures
        forall|r: Result<Vec<TdfFont>, FontError>|
            #![trigger load_matches(r, tdf_header() + f.font_bytes())]
            load_matches(r, tdf_header() + f.font_bytes()) ==> (r matches Ok(v) && v@.len() == 1
                && v@[0].name@ == f.name@ && v@[0].font_type == f.font_type),
{
    let fb = f.font_bytes();
    let b = tdf_header() + fb;
    assert(b.subrange(20, 20 + fb.len() as int) =~= fb);
    assert(b.subrange(0, 20) =~= tdf_header());
    lemma_parse_font_bytes(b, 20, f);
    lemma_header_ok(b);
    let (rec, next) = parse_font_at(b, 20)->Ok_0;
    assert(parse_fonts_from(b, next) == Ok::<Seq<FontRec>, FontError>(Seq::empty()));
    assert(parse_bundle(b) == Ok::<Seq<FontRec>, FontError>(seq![rec] + Seq::<FontRec>::empty()));
    assert(seq![rec] + Seq::<FontRec>::empty() =~= seq![rec]);
    encode_utf8_valid_utf8(f.name@);
    encode_utf8_decode_utf8(f.name@);
    assert forall|r: Result<Vec<TdfFont>, FontError>| load_matches(r, b) implies (r matches Ok(v)
        && v@.len() == 1 && v@[0].name@ == f.name@ && v@[0].font_type == f.font_type) by {
        match r {
            Ok(v) => {
                assert(parse_bundle(b) == Ok::<Seq<FontRec>, FontError>(seq![rec]));
                assert(fonts_match(v@, b, seq![rec]));
                assert(seq![rec][0] == rec);
                assert(v@[0].matches_rec(b, rec));
            },
            Err(_) => {},
        }
    }
}

proof fn lemma_fonts_bytes_prefix(fonts: Seq<TdfFont>, m: int, n: int)
    requires
        0 <= m <= n <= fonts.len(),
    ensures
        fonts_bytes(fonts.subrange(0, m)).len() <= fonts_bytes(fonts.subrange(0, n)).len(),
        fonts_bytes(fonts.subrange(0, n)).subrange(0, fonts_bytes(fonts.subrange(0, m)).len() as int)
            == fonts_bytes(fonts.subrange(0, m)),
    decreases n - m,
{
    let a = fonts_bytes(fonts.subrange(0, m));
    if m < n {
        lemma_fonts_bytes_prefix(fonts, m, n - 1);
        assert(fonts.subrange(0, n).drop_last() =~= fonts.subrange(0, n - 1));
        let c = fonts_bytes(fonts.subrange(0, n - 1));
        assert(fonts_bytes(fonts.subrange(0, n)).subrange(0, a.len() as int) =~= c.subrange(
            0,
            a.len() as int,
        ));
    } else {
        assert(fonts_bytes(fonts.subrange(0, n)).subrange(0, a.len() as int) =~= a);
    }
}

/// The fonts from the `k`th on parse from their position in a bundle.
#[verifier::rlimit(60)]
proof fn lemma_parse_fonts_tail(fonts: Seq<TdfFont>, k: int)
    requires
        0 <= k <= fonts.len(),
        forall|i: int| 0 <= i < fonts.len() ==> font_layout_ok(#[trigger] &fonts[i]),
    ensures
        ({
            let b = tdf_header() + fonts_bytes(fonts) + seq![0u8];
            let pos: int = 20 + fonts_bytes(fonts.subrange(0, k)).len() as int;
            parse_fonts_from(b, pos) matches Ok(recs) && recs.len() == fonts.len() - k && forall|j: int|
                0 <= j < recs.len() ==> (#[trigger] recs[j]).0 == fonts[k + j].name_bytes()
        }),
    decreases fonts.len() - k,
{
    let b = tdf_header() + fonts_bytes(fonts) + seq![0u8];
    let all = fonts_bytes(fonts);
    assert(fonts.subrange(0, fonts.len() as int) =~= fonts);
    lemma_fonts_bytes_prefix(fonts, k, fonts.len() as int);
    let pos: int = 20 + fonts_bytes(fonts.subrange(0, k)).len() as int;
    if k == fonts.len() {
        assert(b[pos] == 0);
        assert(parse_fonts_from(b, pos) == Ok::<Seq<FontRec>, FontError>(Seq::empty()));
    } else {
        let f = fonts[k];
        let fb = f.font_bytes();
        lemma_fonts_bytes_prefix(fonts, k + 1, fonts.len() as int);
        assert(fonts.subrange(0, k + 1).drop_last() =~= fonts.subrange(0, k));
        let pre = fonts_bytes(fonts.subrange(0, k));
        let pre1 = fonts_bytes(fonts.subrange(0, k + 1));
        assert(pre1 == pre + fb);
        assert(b.subrange(pos, pos + fb.len() as int) =~= fb) by {
            assert forall|j: int| 0 <= j < fb.len() implies b.subrange(pos, pos + fb.len() as int)[j] == fb[j] by {
                assert(all.subrange(0, pre1.len() as int)[pre.len() + j] == pre1[pre.len() + j]);
            }
        }
        assert(font_layout_ok(&fonts[k]));
        lemma_parse_font_bytes(b, pos, &f);
        lemma_parse_fonts_tail(fonts, k + 1);
        assert(b[pos] == fb[0]) by {
            assert(b.subrange(pos, pos + fb.len() as int)[0] == b[pos]);
        }
        let (rec, next) = parse_font_at(b, pos)->Ok_0;
        let rest = parse_fonts_from(b, next)->Ok_0;
        assert(parse_fonts_from(b, pos) == Ok::<Seq<FontRec>, FontError>(seq![rec] + rest));
        assert forall|j: int| 0 <= j < rest.len() + 1 implies (#[trigger] (seq![rec] + rest)[j]).0
            == fonts[k + j].name_bytes() by {
            if j > 0 {
                assert((seq![rec] + rest)[j] == rest[j - 1]);
                assert(k + 1 + (j - 1) == k + j);
            }
        }
    }
}

/// Bundle identity: fonts written with `serialize_bundle` load back as as many
/// fonts, with the same names in the same order.
pub proof fn law_bundle_identity(fonts: Seq<TdfFont>)
    requires
        forall|i: int| 0 <= i < fonts.len() ==> font_layout_ok(#[trigger] &fonts[i]),
    ensures
        forall|r: Result<Vec<TdfFont>, FontError>|
            #![trigger load_matches(r, tdf_header() + fonts_bytes(fonts) + seq![0u8])]
            load_matches(r, tdf_header() + fonts_bytes(fonts) + seq![0u8]) ==> (r matches Ok(v)
                && v@.len() == fonts.len() && forall|i: int|
                0 <= i < fonts.len() ==> (#[trigger] v@[i]).name@ == fonts[i].name@),
{
    let b = tdf_header() + fonts_bytes(fonts) + seq![0u8];
    assert(b.subrange(0, 20) =~= tdf_header());
    lemma_header_ok(b);
    assert(fonts.subrange(0, 0) =~= Seq::<TdfFont>::empty());
    lemma_parse_fonts_tail(fonts, 0);
    let recs = parse_bundle(b)->Ok_0;
    assert forall|i: int| 0 <= i < fonts.len() implies valid_utf8(#[trigger] recs[i].0) && decode_utf8(
        recs[i].0,
    ) == fonts[i].name@ by {
        encode_utf8_valid_utf8(fonts[i].name@);
        encode_utf8_decode_utf8(fonts[i].name@);
        assert(recs[i].0 == fonts[0 + i].name_bytes());
    }
    assert forall|r: Result<Vec<TdfFont>, FontError>| load_matches(r, b) implies (r matches Ok(v)
        && v@.len() == fonts.len() && forall|i: int|
        0 <= i < fonts.len() ==> (#[trigger] v@[i]).name@ == fonts[i].name@) by {
        match r {
            Ok(v) => {
                assert forall|i: int| 0 <= i < fonts.len() implies (#[trigger] v@[i]).name@
                    == fonts[i].name@ by {
                    assert(v@[i].matches_rec(b, recs[i]));
                    assert(valid_utf8(recs[i].0));
                }
            },
            Err(_) => {},
        }
    }
}

} // verus!
