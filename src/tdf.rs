//! TheDraw font bundles: parsing with lazy glyph decoding, editing, and serialising.
use vstd::prelude::*;

use std::sync::Arc;

use crate::codepage::{cp437, cp437_byte, cp437_to_unicode, unicode_to_cp437};
use crate::error::FontError;
use crate::glyph::{Glyph, GlyphModel, GlyphPart};
use crate::text::{decode_lossy, utf8_lossy};
use vstd::utf8::{decode_utf8, encode_utf8, valid_utf8};

verus! {

/// Number of glyph slots: the printable range `'!'..='~'`.
pub const CHAR_TABLE_SIZE: usize = 94;

/// Lookup-table entry of an absent glyph.
pub const INVALID_GLYPH: u16 = 0xFFFF;

/// Widest glyph that a conversion puts into a TDF font.
pub const MAX_TDF_GLYPH_WIDTH: usize = 30;

/// Tallest glyph that a conversion puts into a TDF font.
pub const MAX_TDF_GLYPH_HEIGHT: usize = 12;

/// Room for a font name in the binary layout.
pub const FONT_NAME_LEN: usize = 12;

/// Longest name-length byte that parsing honours.
pub const FONT_NAME_LEN_MAX: usize = 16;

/// The kind of a TDF font.
#[derive(Clone, Copy, Debug, PartialEq, Eq, Structural)]
pub enum TdfFontType {
    Outline,
    Block,
    Color,
}

/// Low-level parse failures of the TDF layout.
#[derive(Debug, Clone, Copy, PartialEq, Eq, Structural)]
pub enum TdfParseError {
    FileTooShort,
    IdLengthMismatch(u8),
    IdMismatch,
    FontIndicatorMismatch,
    UnsupportedFontType(u8),
    GlyphOutsideFontDataSize(usize),
    NameTooLong(usize),
}

/// A TheDraw font: glyphs set by hand (the overlay) over glyphs decoded on
/// demand from a parsed buffer (the lazy source).
#[derive(Clone)]
pub struct TdfFont {
    pub name: String,
    pub font_type: TdfFontType,
    pub spacing: i32,
    pub glyphs: TdfGlyphs,
}

/// Glyph storage of a TDF font.
#[derive(Clone)]
pub struct TdfGlyphs {
    overlay: Vec<Option<Glyph>>,
    lazy: Option<LazyGlyphSource>,
}

/// The parsed buffer of one font and its lookup table.
#[derive(Clone)]
struct LazyGlyphSource {
    bytes: Arc<Vec<u8>>,
    font_type: TdfFontType,
    glyph_block_base: usize,
    glyph_block_end: usize,
    lookup: Vec<u16>,
}

/// The slot of a character: `'!'` is slot 0, `'~'` slot 93.
pub open spec fn tdf_slot(ch: char) -> Option<int> {
    if 33 <= (ch as u32) && (ch as u32) <= 126 {
        Some((ch as u32) - 33)
    } else {
        None
    }
}

/// The character of a slot.
pub open spec fn slot_char(i: int) -> char {
    (i + 33) as char
}

/// The part that a byte of a block or outline glyph stands for (bytes 0, 13 and
/// `'&'` are handled before).
pub open spec fn plain_byte_part(ft: TdfFontType, ch: u8) -> GlyphPart {
    if ft == TdfFontType::Outline {
        if ch == 64 {
            GlyphPart::FillMarker
        } else if ch == 79 {
            GlyphPart::OutlineHole
        } else if 65 <= ch && ch <= 82 {
            GlyphPart::OutlinePlaceholder(ch)
        } else if ch == 32 {
            GlyphPart::Skip
        } else {
            GlyphPart::Char(cp437(ch))
        }
    } else {
        if ch == 255 {
            GlyphPart::HardBlank
        } else if ch == 32 {
            GlyphPart::Skip
        } else {
            GlyphPart::Char(cp437(ch))
        }
    }
}

/// The part that a byte and its attribute byte stand for in a color glyph: the
/// low nibble is the foreground, bits 4 to 6 the background, bit 7 blink.
pub open spec fn color_part(ch: u8, attr: u8) -> GlyphPart {
    if ch == 255 {
        GlyphPart::HardBlank
    } else if ch == 32 {
        GlyphPart::Skip
    } else {
        GlyphPart::AnsiChar {
            ch: cp437(ch),
            fg: attr % 16,
            bg: (attr / 16) % 8,
            blink: attr >= 128,
        }
    }
}

/// The parts that the glyph bytes in `b[p..end)` decode to, up to the first zero;
/// a color cell whose attribute byte lies beyond `end` ends the glyph.
pub open spec fn decode_parts(b: Seq<u8>, ft: TdfFontType, p: int, end: int) -> Seq<GlyphPart>
    decreases end - p,
{
    if p < 0 || p >= end || p >= b.len() {
        Seq::empty()
    } else {
        let ch = b[p];
        if ch == 0 {
            Seq::empty()
        } else if ch == 13 {
            seq![GlyphPart::NewLine] + decode_parts(b, ft, p + 1, end)
        } else if ch == 38 {
            seq![GlyphPart::EndMarker] + decode_parts(b, ft, p + 1, end)
        } else if ft == TdfFontType::Color {
            if p + 1 >= end || p + 1 >= b.len() {
                Seq::empty()
            } else {
                seq![color_part(ch, b[p + 1])] + decode_parts(b, ft, p + 2, end)
            }
        } else {
            seq![plain_byte_part(ft, ch)] + decode_parts(b, ft, p + 1, end)
        }
    }
}

/// The glyph stored at `q`: a width byte, a height byte, then its parts.
pub open spec fn decode_glyph_at(b: Seq<u8>, ft: TdfFontType, q: int, end: int) -> GlyphModel {
    (b[q] as usize, b[q + 1] as usize, decode_parts(b, ft, q + 2, end))
}

/// The glyph of slot `i` in a parsed font whose glyph block is `b[base..end)`.
pub open spec fn source_glyph(
    b: Seq<u8>,
    ft: TdfFontType,
    base: int,
    end: int,
    lookup: Seq<u16>,
    i: int,
) -> Option<GlyphModel> {
    if lookup[i] == INVALID_GLYPH {
        None
    } else if base + lookup[i] + 2 <= end {
        Some(decode_glyph_at(b, ft, base + lookup[i], end))
    } else {
        None
    }
}

impl LazyGlyphSource {
    spec fn wf(&self) -> bool {
        &&& self.lookup@.len() == CHAR_TABLE_SIZE
        &&& self.glyph_block_base <= self.glyph_block_end
        &&& self.glyph_block_end <= self.bytes@.len()
    }

    spec fn glyph_at(&self, i: int) -> Option<GlyphModel> {
        source_glyph(
            self.bytes@,
            self.font_type,
            self.glyph_block_base as int,
            self.glyph_block_end as int,
            self.lookup@,
            i,
        )
    }
}

/// Decodes the parts in `b[p..end)`.
fn decode_parts_exec(b: &Vec<u8>, ft: TdfFontType, p0: usize, end: usize) -> (r: Vec<GlyphPart>)
    requires
        end <= b@.len(),
    ensures
        r@ == decode_parts(b@, ft, p0 as int, end as int),
{
    let mut parts: Vec<GlyphPart> = Vec::new();
    let mut p = p0;
    while p < end
        invariant
            end <= b@.len(),
            parts@ + decode_parts(b@, ft, p as int, end as int) == decode_parts(
                b@,
                ft,
                p0 as int,
                end as int,
            ),
        decreases end - p,
    {
        let ghost before = parts@;
        let ghost p_start = p as int;
        let ch = b[p];
        if ch == 0 {
            assert(parts@ =~= parts@ + decode_parts(b@, ft, p as int, end as int));
            return parts;
        }
        p = p + 1;
        let part;
        if ch == 13 {
            part = GlyphPart::NewLine;
        } else if ch == 38 {
            part = GlyphPart::EndMarker;
        } else {
            match ft {
                TdfFontType::Color => {
                    if p >= end {
                        assert(parts@ =~= parts@ + decode_parts(b@, ft, p - 1, end as int));
                        return parts;
                    }
                    let attr = b[p];
                    p = p + 1;
                    if ch == 255 {
                        part = GlyphPart::HardBlank;
                    } else if ch == 32 {
                        part = GlyphPart::Skip;
                    } else {
                        part = GlyphPart::AnsiChar {
                            ch: cp437_to_unicode(ch),
                            fg: attr % 16,
                            bg: (attr / 16) % 8,
                            blink: attr >= 128,
                        };
                    }
                },
                TdfFontType::Block => {
                    if ch == 255 {
                        part = GlyphPart::HardBlank;
                    } else if ch == 32 {
                        part = GlyphPart::Skip;
                    } else {
                        part = GlyphPart::Char(cp437_to_unicode(ch));
                    }
                },
                TdfFontType::Outline => {
                    if ch == 64 {
                        part = GlyphPart::FillMarker;
                    } else if ch == 79 {
                        part = GlyphPart::OutlineHole;
                    } else if 65 <= ch && ch <= 82 {
                        part = GlyphPart::OutlinePlaceholder(ch);
                    } else if ch == 32 {
                        part = GlyphPart::Skip;
                    } else {
                        part = GlyphPart::Char(cp437_to_unicode(ch));
                    }
                },
            }
        }
        parts.push(part);
        assert(decode_parts(b@, ft, p_start, end as int) == seq![part] + decode_parts(
            b@,
            ft,
            p as int,
            end as int,
        ));
        assert(parts@ + decode_parts(b@, ft, p as int, end as int) =~= before + (seq![part]
            + decode_parts(b@, ft, p as int, end as int)));
    }
    assert(parts@ =~= parts@ + decode_parts(b@, ft, p as int, end as int));
    parts
}

/// The slot of a character in the printable range.
pub fn tdf_index(ch: char) -> (r: Option<usize>)
    ensures
        r matches Some(i) ==> tdf_slot(ch) == Some(i as int),
        r is None ==> tdf_slot(ch) is None,
{
    let code = ch as u32;
    if 33 <= code && code <= 126 {
        Some((code - 33) as usize)
    } else {
        None
    }
}

/// The character of a slot.
pub fn tdf_char(index: usize) -> (r: char)
    requires
        index < CHAR_TABLE_SIZE,
    ensures
        r == slot_char(index as int),
        tdf_slot(r) == Some(index as int),
{
    let c = (index as u8 + 33) as char;
    assert(c as u32 == index + 33);
    c
}

impl TdfFont {
    /// The font's internal consistency: one overlay entry per slot, and a lazy
    /// source whose window lies inside its buffer.
    pub closed spec fn wf(&self) -> bool {
        &&& self.glyphs.overlay@.len() == CHAR_TABLE_SIZE
        &&& self.glyphs.lazy matches Some(l) ==> l.wf()
    }

    /// Whether slot `i` holds a character.
    pub closed spec fn has(&self, i: int) -> bool {
        self.glyphs.overlay@[i] is Some || (self.glyphs.lazy matches Some(l) && l.lookup@[i]
            != INVALID_GLYPH)
    }

    /// The glyph of slot `i`: the overlay's where it has one, else the one decoded
    /// from the lazy source.
    pub closed spec fn glyph_at(&self, i: int) -> Option<GlyphModel> {
        match self.glyphs.overlay@[i] {
            Some(g) => Some(g@),
            None => match self.glyphs.lazy {
                Some(l) => l.glyph_at(i),
                None => None,
            },
        }
    }

    /// Whether the font has no lazy source (it was built by hand).
    pub closed spec fn overlay_only(&self) -> bool {
        self.glyphs.lazy is None
    }

    /// A slot with a glyph holds a character; a slot without a character has no glyph.
    pub proof fn lemma_glyph_has(&self, i: int)
        ensures
            self.glyph_at(i) is Some ==> self.has(i),
    {
    }

    /// In a font built by hand a slot holds a character exactly when it has a glyph.
    pub proof fn lemma_overlay_has(&self, i: int)
        requires
            self.overlay_only(),
        ensures
            self.has(i) == (self.glyph_at(i) is Some),
    {
    }

    /// How many of the first `n` slots hold a character.
    pub open spec fn count_upto(&self, n: int) -> nat
        decreases n,
    {
        if n <= 0 {
            0
        } else {
            self.count_upto(n - 1) + if self.has(n - 1) { 1nat } else { 0nat }
        }
    }

    /// How many characters the font has.
    pub open spec fn count(&self) -> nat {
        self.count_upto(CHAR_TABLE_SIZE as int)
    }

    /// Whether the font has character `ch`.
    pub open spec fn has_char_spec(&self, ch: char) -> bool {
        tdf_slot(ch) matches Some(i) && self.has(i)
    }

    /// The glyph of character `ch`.
    pub open spec fn glyph_of(&self, ch: char) -> Option<GlyphModel> {
        match tdf_slot(ch) {
            Some(i) => self.glyph_at(i),
            None => None,
        }
    }

    /// An empty font.
    pub fn new(name: &str, font_type: TdfFontType, spacing: i32) -> (r: Self)
        ensures
            r.wf(),
            r.name@ == name@,
            r.font_type == font_type,
            r.spacing == spacing,
            r.overlay_only(),
            forall|i: int| 0 <= i < CHAR_TABLE_SIZE ==> !#[trigger] r.has(i) && r.glyph_at(i) is None,
    {
        let mut overlay: Vec<Option<Glyph>> = Vec::new();
        let mut i: usize = 0;
        while i < CHAR_TABLE_SIZE
            invariant
                i <= CHAR_TABLE_SIZE,
                overlay@.len() == i,
                forall|j: int| 0 <= j < i ==> #[trigger] overlay@[j] is None,
            decreases CHAR_TABLE_SIZE - i,
        {
            overlay.push(None);
            i = i + 1;
        }
        TdfFont {
            name: name.to_owned(),
            font_type,
            spacing,
            glyphs: TdfGlyphs { overlay, lazy: None },
        }
    }

    /// Sets the glyph of `ch` in the overlay; characters outside `'!'..='~'` are ignored.
    pub fn add_glyph(&mut self, ch: char, glyph: Glyph)
        requires
            old(self).wf(),
        ensures
            final(self).wf(),
            final(self).name == old(self).name,
            final(self).font_type == old(self).font_type,
            final(self).spacing == old(self).spacing,
            final(self).overlay_only() == old(self).overlay_only(),
            forall|i: int|
                #![trigger final(self).has(i)]
                #![trigger final(self).glyph_at(i)]
                0 <= i < CHAR_TABLE_SIZE ==> if tdf_slot(ch) == Some(i) {
                    final(self).has(i) && final(self).glyph_at(i) == Some(glyph@)
                } else {
                    final(self).has(i) == old(self).has(i) && final(self).glyph_at(i) == old(
                        self,
                    ).glyph_at(i)
                },
    {
        match tdf_index(ch) {
            Some(idx) => {
                self.glyphs.overlay.set(idx, Some(glyph));
            },
            None => {},
        }
    }

    proof fn lemma_count_one_less(a: &TdfFont, b: &TdfFont, k: int, n: int)
        requires
            0 <= k < n,
            a.has(k),
            !b.has(k),
            forall|j: int| 0 <= j < n && j != k ==> a.has(j) == b.has(j),
        ensures
            b.count_upto(n) + 1 == a.count_upto(n),
        decreases n,
    {
        if n - 1 != k {
            TdfFont::lemma_count_one_less(a, b, k, n - 1);
        } else {
            TdfFont::lemma_count_same(a, b, n - 1);
        }
    }

    proof fn lemma_count_same(a: &TdfFont, b: &TdfFont, n: int)
        requires
            forall|j: int| 0 <= j < n ==> a.has(j) == b.has(j),
        ensures
            b.count_upto(n) == a.count_upto(n),
        decreases n,
    {
        if n > 0 {
            TdfFont::lemma_count_same(a, b, n - 1);
        }
    }

    /// Removes the glyph of `ch` from the overlay and tombstones it in the lazy
    /// source; returns whether the font had it.
    pub fn remove_glyph(&mut self, ch: char) -> (r: bool)
        requires
            old(self).wf(),
        ensures
            final(self).wf(),
            final(self).name == old(self).name,
            final(self).font_type == old(self).font_type,
            final(self).spacing == old(self).spacing,
            final(self).overlay_only() == old(self).overlay_only(),
            r == old(self).has_char_spec(ch),
            !final(self).has_char_spec(ch),
            final(self).glyph_of(ch) is None,
            !r ==> final(self).glyph_of(ch) == old(self).glyph_of(ch),
            final(self).count() + (if r { 1nat } else { 0nat }) == old(self).count(),
            forall|i: int|
                #![trigger final(self).has(i)]
                #![trigger final(self).glyph_at(i)]
                0 <= i < CHAR_TABLE_SIZE && tdf_slot(ch) != Some(i) ==> final(self).has(i) == old(
                    self,
                ).has(i) && final(self).glyph_at(i) == old(self).glyph_at(i),
    {
        let idx = match tdf_index(ch) {
            Some(idx) => idx,
            None => {
                return false;
            },
        };
        let had_overlay = self.glyphs.overlay[idx].is_some();
        self.glyphs.overlay.set(idx, None);
        let mut had_lazy = false;
        match &mut self.glyphs.lazy {
            Some(lazy) => {
                if lazy.lookup[idx] != INVALID_GLYPH {
                    lazy.lookup.set(idx, INVALID_GLYPH);
                    had_lazy = true;
                }
            },
            None => {},
        }
        proof {
            old(self).lemma_glyph_has(idx as int);
            if had_overlay || had_lazy {
                TdfFont::lemma_count_one_less(old(self), self, idx as int, CHAR_TABLE_SIZE as int);
            } else {
                TdfFont::lemma_count_same(old(self), self, CHAR_TABLE_SIZE as int);
            }
        }
        had_overlay || had_lazy
    }

    /// Whether the font has character `ch`.
    pub fn has_char(&self, ch: char) -> (r: bool)
        requires
            self.wf(),
        ensures
            r == self.has_char_spec(ch),
            !r ==> self.glyph_of(ch) is None,
    {
        proof {
            if let Some(i) = tdf_slot(ch) {
                self.lemma_glyph_has(i);
            }
        }
        match tdf_index(ch) {
            None => false,
            Some(idx) => {
                if self.glyphs.overlay[idx].is_some() {
                    true
                } else {
                    match &self.glyphs.lazy {
                        Some(lazy) => lazy.lookup[idx] != INVALID_GLYPH,
                        None => false,
                    }
                }
            },
        }
    }

    /// The number of characters the font has.
    pub fn glyph_count(&self) -> (r: usize)
        requires
            self.wf(),
        ensures
            r == self.count(),
    {
        let mut count: usize = 0;
        let mut i: usize = 0;
        while i < CHAR_TABLE_SIZE
            invariant
                self.wf(),
                i <= CHAR_TABLE_SIZE,
                count == self.count_upto(i as int),
                count <= i,
            decreases CHAR_TABLE_SIZE - i,
        {
            let present = if self.glyphs.overlay[i].is_some() {
                true
            } else {
                match &self.glyphs.lazy {
                    Some(lazy) => lazy.lookup[i] != INVALID_GLYPH,
                    None => false,
                }
            };
            if present {
                count = count + 1;
            }
            i = i + 1;
        }
        count
    }

    /// The spacing hint: the font's spacing, at least 1.
    pub fn spacing(&self) -> (r: Option<usize>)
        ensures
            r == Some(if self.spacing < 1 { 1usize } else { self.spacing as usize }),
    {
        if self.spacing < 1 {
            Some(1)
        } else {
            Some(self.spacing as usize)
        }
    }

    /// The font's kind.
    pub fn font_type(&self) -> (r: TdfFontType)
        ensures
            r == self.font_type,
    {
        self.font_type
    }

    /// The glyph of slot `idx`.
    fn glyph_in_slot(&self, idx: usize) -> (r: Option<Glyph>)
        requires
            self.wf(),
            idx < CHAR_TABLE_SIZE,
        ensures
            r matches Some(g) ==> self.glyph_at(idx as int) == Some(g@),
            r is None ==> self.glyph_at(idx as int) is None,
    {
        match &self.glyphs.overlay[idx] {
            Some(g) => {
                return Some(g.copy());
            },
            None => {},
        }
        match &self.glyphs.lazy {
            None => None,
            Some(lazy) => {
                let off = lazy.lookup[idx];
                if off == INVALID_GLYPH {
                    return None;
                }
                let base = lazy.glyph_block_base;
                let end = lazy.glyph_block_end;
                if end - base < 2 || (end - base - 2) < off as usize {
                    return None;
                }
                let q = base + off as usize;
                let b: &Vec<u8> = &*lazy.bytes;
                let width = b[q] as usize;
                let height = b[q + 1] as usize;
                let parts = decode_parts_exec(b, lazy.font_type, q + 2, end);
                Some(Glyph { width, height, parts })
            },
        }
    }

    /// The glyph of `ch`, decoded from the lazy source where the overlay has none.
    pub fn glyph(&self, ch: char) -> (r: Option<Glyph>)
        requires
            self.wf(),
        ensures
            r matches Some(g) ==> self.glyph_of(ch) == Some(g@),
            r is None ==> self.glyph_of(ch) is None,
    {
        match tdf_index(ch) {
            None => None,
            Some(idx) => self.glyph_in_slot(idx),
        }
    }

    /// The width and height of the glyph of `ch`.
    pub fn glyph_size(&self, ch: char) -> (r: Option<(usize, usize)>)
        requires
            self.wf(),
        ensures
            r matches Some(wh) ==> self.glyph_of(ch) matches Some(g) && wh == (g.0, g.1),
            r is None ==> self.glyph_of(ch) is None,
    {
        match self.glyph(ch) {
            Some(g) => Some((g.width, g.height)),
            None => None,
        }
    }
}

/// A little-endian 16-bit value at `p`.
pub open spec fn le16(b: Seq<u8>, p: int) -> int {
    b[p] as int + 256 * (b[p + 1] as int)
}

/// The index of the first zero byte at or after `i`, or the length.
pub open spec fn first_zero(s: Seq<u8>, i: int) -> int
    decreases s.len() - i,
{
    if i >= s.len() {
        s.len() as int
    } else if s[i] == 0 {
        i
    } else {
        first_zero(s, i + 1)
    }
}

/// The bytes of `TheDraw FONTS file`.
pub open spec fn tdf_signature() -> Seq<u8> {
    seq![84, 104, 101, 68, 114, 97, 119, 32, 70, 79, 78, 84, 83, 32, 102, 105, 108, 101]
}

/// The first lookup entry from `i` on that is no sentinel and lies at or
/// beyond the block size.
pub open spec fn first_bad_offset(lookup: Seq<u16>, size: int, i: int) -> Option<u16>
    decreases lookup.len() - i,
{
    if i < 0 || i >= lookup.len() {
        None
    } else if lookup[i] != INVALID_GLYPH && lookup[i] >= size {
        Some(lookup[i])
    } else {
        first_bad_offset(lookup, size, i + 1)
    }
}

/// One parsed font header: name bytes, type, spacing, glyph-block start and end,
/// lookup table.
pub type FontRec = (Seq<u8>, TdfFontType, u8, int, int, Seq<u16>);

/// The font-type code of a byte at most 2.
pub open spec fn font_type_of(t: u8) -> TdfFontType {
    if t == 0 {
        TdfFontType::Outline
    } else if t == 1 {
        TdfFontType::Block
    } else {
        TdfFontType::Color
    }
}

/// Parses the font that starts at `o`, giving its record and the position after it.
pub open spec fn parse_font_at(b: Seq<u8>, o: int) -> Result<(FontRec, int), FontError> {
    if o < 0 || b.len() - o < 4 {
        Err(FontError::TdfTruncated { field: "indicator" })
    } else if !(b[o] == 0x55 && b[o + 1] == 0xAA && b[o + 2] == 0 && b[o + 3] == 0xFF) {
        Err(FontError::TdfFontIndicatorMismatch)
    } else if o + 4 >= b.len() {
        Err(FontError::TdfTruncated { field: "name length" })
    } else {
        let nl: int = if b[o + 4] > 16 { 16 } else { b[o + 4] as int };
        let n0 = o + 5;
        if n0 + nl > b.len() {
            Err(FontError::TdfTruncated { field: "name" })
        } else {
            let raw = b.subrange(n0, n0 + nl);
            let name = raw.subrange(0, first_zero(raw, 0));
            let t = n0 + 16;
            if t >= b.len() {
                Err(FontError::TdfTruncated { field: "font type" })
            } else if b[t] > 2 {
                Err(FontError::TdfUnsupportedType(b[t]))
            } else if t + 1 >= b.len() {
                Err(FontError::TdfTruncated { field: "spacing" })
            } else if t + 4 > b.len() {
                Err(FontError::TdfTruncated { field: "block size" })
            } else {
                let size = le16(b, t + 2);
                let lt = t + 4;
                if lt + 188 > b.len() {
                    Err(FontError::TdfTruncated { field: "char table" })
                } else {
                    let lookup = Seq::new(94, |i: int| le16(b, lt + 2 * i) as u16);
                    let base = lt + 188;
                    if base + size > b.len() {
                        Err(FontError::TdfTruncated { field: "glyph block" })
                    } else {
                        match first_bad_offset(lookup, size, 0) {
                            Some(off) => Err(
                                FontError::TdfGlyphOutOfBounds {
                                    offset: off as usize,
                                    size: size as usize,
                                },
                            ),
                            None => Ok(
                                ((name, font_type_of(b[t]), b[t + 1], base, base + size, lookup), base
                                    + size),
                            ),
                        }
                    }
                }
            }
        }
    }
}

/// Parses fonts from `o` on, up to a zero byte or the end of the buffer.
pub open spec fn parse_fonts_from(b: Seq<u8>, o: int) -> Result<Seq<FontRec>, FontError>
    decreases b.len() - o,
{
    if o < 0 || o >= b.len() || b[o] == 0 {
        Ok(Seq::empty())
    } else {
        match parse_font_at(b, o) {
            Err(e) => Err(e),
            Ok((rec, next)) => if next <= o || next > b.len() {
                Ok(seq![rec])
            } else {
                match parse_fonts_from(b, next) {
                    Err(e) => Err(e),
                    Ok(s) => Ok(seq![rec] + s),
                }
            },
        }
    }
}

/// Parses a whole bundle: the header, then its fonts.
pub open spec fn parse_bundle(b: Seq<u8>) -> Result<Seq<FontRec>, FontError> {
    if b.len() < 20 {
        Err(FontError::TdfFileTooShort)
    } else if b[0] != 19 {
        Err(FontError::TdfIdLengthMismatch { expected: 19, got: b[0] as usize })
    } else if b.subrange(1, 19) != tdf_signature() {
        Err(FontError::TdfIdMismatch)
    } else if b[19] != 26 {
        Err(FontError::TdfMissingCtrlZ)
    } else {
        parse_fonts_from(b, 20)
    }
}

/// `Ok(done + s)` for `Ok(s)`, the error otherwise.
pub open spec fn prepend_recs(done: Seq<FontRec>, r: Result<Seq<FontRec>, FontError>) -> Result<
    Seq<FontRec>,
    FontError,
> {
    match r {
        Ok(s) => Ok(done + s),
        Err(e) => Err(e),
    }
}

impl TdfFont {
    /// This font is the one that record `rec` of buffer `b` describes.
    pub open spec fn matches_rec(&self, b: Seq<u8>, rec: FontRec) -> bool {
        &&& self.wf()
        &&& self.name@ == utf8_lossy(rec.0)
        &&& (valid_utf8(rec.0) ==> self.name@ == decode_utf8(rec.0))
        &&& self.font_type == rec.1
        &&& self.spacing == rec.2 as i32
        &&& forall|i: int|
            0 <= i < CHAR_TABLE_SIZE ==> (#[trigger] self.has(i) == (rec.5[i] != INVALID_GLYPH))
                && self.glyph_at(i) == source_glyph(b, rec.1, rec.3, rec.4, rec.5, i)
    }
}

/// The fonts are those that the records describe, in order.
pub open spec fn fonts_match(v: Seq<TdfFont>, b: Seq<u8>, recs: Seq<FontRec>) -> bool {
    v.len() == recs.len() && forall|i: int| 0 <= i < v.len() ==> #[trigger] v[i].matches_rec(b, recs[i])
}

/// The outcome of loading agrees with the parse of the buffer: the same error, or
/// one font per record.
pub open spec fn load_matches(r: Result<Vec<TdfFont>, FontError>, b: Seq<u8>) -> bool {
    match (r, parse_bundle(b)) {
        (Ok(v), Ok(recs)) => fonts_match(v@, b, recs),
        (Err(e1), Err(e2)) => e1 == e2,
        _ => false,
    }
}

/// The little-endian 16-bit value at `p`.
fn read_le16(b: &Vec<u8>, p: usize) -> (r: u16)
    requires
        p + 1 < b@.len(),
    ensures
        r as int == le16(b@, p as int),
{
    let n = b.len();
    let lo = b[p] as u32;
    let hi = b[p + 1] as u32;
    assert(256 * hi <= 65280) by (nonlinear_arith)
        requires
            hi <= 255,
    ;
    (lo + 256 * hi) as u16
}

/// An overlay with no glyph.
fn empty_overlay() -> (r: Vec<Option<Glyph>>)
    ensures
        r@.len() == CHAR_TABLE_SIZE,
        forall|j: int| 0 <= j < CHAR_TABLE_SIZE ==> #[trigger] r@[j] is None,
{
    let mut overlay: Vec<Option<Glyph>> = Vec::new();
    let mut i: usize = 0;
    while i < CHAR_TABLE_SIZE
        invariant
            i <= CHAR_TABLE_SIZE,
            overlay@.len() == i,
            forall|j: int| 0 <= j < i ==> #[trigger] overlay@[j] is None,
        decreases CHAR_TABLE_SIZE - i,
    {
        overlay.push(None);
        i = i + 1;
    }
    overlay
}

/// The first zero byte of `b[from..to)`, or `to`.
fn find_zero(b: &Vec<u8>, from: usize, to: usize) -> (r: usize)
    requires
        from <= to <= b@.len(),
    ensures
        from <= r <= to,
        from + first_zero(b@.subrange(from as int, to as int), 0) == r,
{
    let ghost raw = b@.subrange(from as int, to as int);
    let mut i = from;
    while i < to
        invariant
            from <= i <= to <= b@.len(),
            raw == b@.subrange(from as int, to as int),
            first_zero(raw, 0) == first_zero(raw, i - from),
        decreases to - i,
    {
        if b[i] == 0 {
            proof {
                lemma_first_zero_bound(raw, i - from);
            }
            return i;
        }
        i = i + 1;
    }
    i
}

proof fn lemma_first_zero_bound(s: Seq<u8>, i: int)
    requires
        0 <= i,
    ensures
        i <= s.len() ==> i <= first_zero(s, i) <= s.len(),
    decreases s.len() - i,
{
    if i < s.len() && s[i] != 0 {
        lemma_first_zero_bound(s, i + 1);
    }
}

/// The first out-of-block lookup entry.
fn find_bad_offset(lookup: &Vec<u16>, size: usize) -> (r: Option<u16>)
    ensures
        r == first_bad_offset(lookup@, size as int, 0),
{
    let mut i: usize = 0;
    while i < lookup.len()
        invariant
            i <= lookup@.len(),
            first_bad_offset(lookup@, size as int, 0) == first_bad_offset(lookup@, size as int, i as int),
        decreases lookup.len() - i,
    {
        let off = lookup[i];
        if off != INVALID_GLYPH && off as usize >= size {
            return Some(off);
        }
        i = i + 1;
    }
    None
}

/// The byte of the signature at `i`.
pub(crate) fn signature_byte(i: usize) -> (r: u8)
    requires
        i < 18,
    ensures
        r == tdf_signature()[i as int],
{
    match i {
        0 => 84,
        1 => 104,
        2 => 101,
        3 => 68,
        4 => 114,
        5 => 97,
        6 => 119,
        7 => 32,
        8 => 70,
        9 => 79,
        10 => 78,
        11 => 84,
        12 => 83,
        13 => 32,
        14 => 102,
        15 => 105,
        16 => 108,
        _ => 101,
    }
}

/// Parses the font at `o` and wires it to the shared buffer.
fn parse_font_exec(bytes: &Arc<Vec<u8>>, o: usize) -> (r: Result<(TdfFont, usize), FontError>)
    ensures
        match (r, parse_font_at(bytes@, o as int)) {
            (Ok((f, next)), Ok((rec, n2))) => next == n2 && o < next <= bytes@.len()
                && f.matches_rec(bytes@, rec) && !f.overlay_only(),
            (Err(e1), Err(e2)) => e1 == e2,
            _ => false,
        },
{
    let b: &Vec<u8> = &**bytes;
    let len = b.len();
    if o > len || len - o < 4 {
        return Err(FontError::TdfTruncated { field: "indicator" });
    }
    if !(b[o] == 0x55 && b[o + 1] == 0xAA && b[o + 2] == 0 && b[o + 3] == 0xFF) {
        return Err(FontError::TdfFontIndicatorMismatch);
    }
    if o + 4 >= len {
        return Err(FontError::TdfTruncated { field: "name length" });
    }
    let orig_len = b[o + 4] as usize;
    let name_len = if orig_len > FONT_NAME_LEN_MAX { FONT_NAME_LEN_MAX } else { orig_len };
    let n0 = o + 5;
    if len - n0 < name_len {
        return Err(FontError::TdfTruncated { field: "name" });
    }
    let z = find_zero(b, n0, n0 + name_len);
    let name = decode_lossy(&b.as_slice()[n0..z]);
    proof {
        let raw = bytes@.subrange(n0 as int, n0 + name_len);
        assert(b@.subrange(n0 as int, z as int) =~= raw.subrange(0, first_zero(raw, 0)));
    }
    if len - n0 <= 16 {
        return Err(FontError::TdfTruncated { field: "font type" });
    }
    let t = n0 + 16;
    let font_type = match b[t] {
        0 => TdfFontType::Outline,
        1 => TdfFontType::Block,
        2 => TdfFontType::Color,
        other => {
            return Err(FontError::TdfUnsupportedType(other));
        },
    };
    if t + 1 >= len {
        return Err(FontError::TdfTruncated { field: "spacing" });
    }
    let spacing = b[t + 1];
    if len - t < 4 {
        return Err(FontError::TdfTruncated { field: "block size" });
    }
    let block_size = read_le16(b, t + 2) as usize;
    let lt = t + 4;
    if len - lt < 188 {
        return Err(FontError::TdfTruncated { field: "char table" });
    }
    let mut lookup: Vec<u16> = Vec::new();
    let mut i: usize = 0;
    while i < CHAR_TABLE_SIZE
        invariant
            i <= CHAR_TABLE_SIZE,
            len == b@.len(),
            lt + 188 <= b@.len(),
            lookup@.len() == i,
            forall|j: int| 0 <= j < i ==> #[trigger] lookup@[j] as int == le16(b@, lt + 2 * j),
        decreases CHAR_TABLE_SIZE - i,
    {
        assert(lt + 2 * i + 1 < b@.len());
        lookup.push(read_le16(b, lt + 2 * i));
        i = i + 1;
    }
    let ghost spec_lookup = Seq::new(94, |j: int| le16(b@, lt + 2 * j) as u16);
    assert(lookup@ =~= spec_lookup);
    let base = lt + 188;
    if len - base < block_size {
        return Err(FontError::TdfTruncated { field: "glyph block" });
    }
    match find_bad_offset(&lookup, block_size) {
        Some(off) => {
            return Err(FontError::TdfGlyphOutOfBounds { offset: off as usize, size: block_size });
        },
        None => {},
    }
    let end = base + block_size;
    let font = TdfFont {
        name,
        font_type,
        spacing: spacing as i32,
        glyphs: TdfGlyphs {
            overlay: empty_overlay(),
            lazy: Some(
                LazyGlyphSource {
                    bytes: Arc::clone(bytes),
                    font_type,
                    glyph_block_base: base,
                    glyph_block_end: end,
                    lookup,
                },
            ),
        },
    };
    Ok((font, end))
}

impl TdfFont {
    /// Parses every font of a bundle, copying the buffer once.
    pub fn load(bytes: &[u8]) -> (r: Result<Vec<TdfFont>, FontError>)
        ensures
            load_matches(r, bytes@),
    {
        let v = vstd::slice::slice_to_vec(bytes);
        TdfFont::load_arc(Arc::new(v))
    }

    /// Parses every font of a bundle; the fonts share the buffer and decode their
    /// glyphs on demand.
    pub fn load_arc(bytes: Arc<Vec<u8>>) -> (r: Result<Vec<TdfFont>, FontError>)
        ensures
            load_matches(r, bytes@),
    {
        let b: &Vec<u8> = &*bytes;
        let len = b.len();
        if len < 20 {
            return Err(FontError::TdfFileTooShort);
        }
        if b[0] != 19 {
            return Err(FontError::TdfIdLengthMismatch { expected: 19, got: b[0] as usize });
        }
        let mut k: usize = 0;
        while k < 18
            invariant
                20 <= b@.len(),
                b@ == bytes@,
                b@[0] == 19,
                k <= 18,
                forall|j: int| 0 <= j < k ==> b@[1 + j] == #[trigger] tdf_signature()[j],
            decreases 18 - k,
        {
            if b[1 + k] != signature_byte(k) {
                assert(b@.subrange(1, 19)[k as int] != tdf_signature()[k as int]);
                assert(b@.subrange(1, 19) != tdf_signature());
                return Err(FontError::TdfIdMismatch);
            }
            k = k + 1;
        }
        assert(b@.subrange(1, 19) =~= tdf_signature());
        if b[19] != 26 {
            return Err(FontError::TdfMissingCtrlZ);
        }
        let mut fonts: Vec<TdfFont> = Vec::new();
        let ghost done: Seq<FontRec> = Seq::empty();
        let mut o: usize = 20;
        while o < len
            invariant
                len == bytes@.len(),
                b@ == bytes@,
                20 <= o <= len,
                parse_bundle(bytes@) == prepend_recs(done, parse_fonts_from(bytes@, o as int)),
                fonts_match(fonts@, bytes@, done),
            ensures
                parse_bundle(bytes@) == prepend_recs(done, parse_fonts_from(bytes@, o as int)),
                fonts_match(fonts@, bytes@, done),
                o >= len || bytes@[o as int] == 0,
            decreases len - o,
        {
            if b[o] == 0 {
                break;
            }
            match parse_font_exec(&bytes, o) {
                Err(e) => {
                    return Err(e);
                },
                Ok((font, next)) => {
                    proof {
                        let rec = parse_font_at(bytes@, o as int).unwrap().0;
                        assert(done + (seq![rec] + Seq::empty()) =~= done.push(rec));
                        match parse_fonts_from(bytes@, next as int) {
                            Ok(s) => {
                                assert(done + (seq![rec] + s) =~= done.push(rec) + s);
                            },
                            Err(_) => {},
                        }
                        done = done.push(rec);
                    }
                    fonts.push(font);
                    o = next;
                },
            }
        }
        assert(done + Seq::<FontRec>::empty() =~= done);
        Ok(fonts)
    }
}

/// The attribute byte of a color cell.
pub open spec fn attr_byte(fg: u8, bg: u8, blink: bool) -> u8 {
    ((bg % 8) * 16 + fg % 16 + if blink { 128int } else { 0int }) as u8
}

/// The byte that stands for a part, before any attribute byte.
pub open spec fn part_byte(p: GlyphPart) -> u8 {
    match p {
        GlyphPart::NewLine => 13,
        GlyphPart::EndMarker => 38,
        GlyphPart::HardBlank => 255,
        GlyphPart::FillMarker => 64,
        GlyphPart::OutlineHole => 79,
        GlyphPart::OutlinePlaceholder(b) => b,
        GlyphPart::Skip => 32,
        GlyphPart::Char(c) => cp437_byte(c),
        GlyphPart::AnsiChar { ch, .. } => cp437_byte(ch),
    }
}

/// The attribute byte that follows a cell in a color font: a colored cell's own
/// colors, none for a hard blank or a transparent cell, light gray on black for
/// any other cell.
pub open spec fn cell_attr(p: GlyphPart) -> u8 {
    match p {
        GlyphPart::AnsiChar { fg, bg, blink, .. } => attr_byte(fg, bg, blink),
        GlyphPart::HardBlank => 0,
        GlyphPart::Skip => 0,
        _ => 7,
    }
}

/// The bytes a part is written as in a font of type `ft`: line breaks and end
/// markers are one byte; in a color font every cell is followed by its attribute
/// byte, in other fonts a cell is one byte.
pub open spec fn encode_part(p: GlyphPart, ft: TdfFontType) -> Seq<u8> {
    if p is NewLine || p is EndMarker || ft != TdfFontType::Color {
        seq![part_byte(p)]
    } else {
        seq![part_byte(p), cell_attr(p)]
    }
}

/// The bytes a part sequence is written as.
pub open spec fn encode_parts(ps: Seq<GlyphPart>, ft: TdfFontType) -> Seq<u8>
    decreases ps.len(),
{
    if ps.len() == 0 {
        Seq::empty()
    } else {
        encode_parts(ps.drop_last(), ft) + encode_part(ps.last(), ft)
    }
}

/// The bytes a glyph is written as: width, height, parts, a zero terminator.
pub open spec fn encode_glyph(g: GlyphModel, ft: TdfFontType) -> Seq<u8> {
    seq![g.0 as u8, g.1 as u8] + encode_parts(g.2, ft) + seq![0u8]
}

/// A 16-bit value, little-endian.
pub open spec fn le16_bytes(v: u16) -> Seq<u8> {
    seq![(v % 256) as u8, (v / 256) as u8]
}

/// The font-type byte.
pub open spec fn type_byte(t: TdfFontType) -> u8 {
    match t {
        TdfFontType::Outline => 0,
        TdfFontType::Block => 1,
        TdfFontType::Color => 2,
    }
}

/// The bundle header: id length, signature, CTRL-Z.
pub open spec fn tdf_header() -> Seq<u8> {
    seq![19u8] + tdf_signature() + seq![26u8]
}

impl TdfFont {
    /// The UTF-8 bytes of the name.
    pub open spec fn name_bytes(&self) -> Seq<u8> {
        encode_utf8(self.name@)
    }

    /// The glyph block for the first `n` slots.
    pub open spec fn block_upto(&self, n: int) -> Seq<u8>
        decreases n,
    {
        if n <= 0 {
            Seq::empty()
        } else {
            self.block_upto(n - 1) + match self.glyph_at(n - 1) {
                Some(g) => encode_glyph(g, self.font_type),
                None => Seq::empty(),
            }
        }
    }

    /// The lookup table for the first `n` slots.
    pub open spec fn lookup_upto(&self, n: int) -> Seq<u8>
        decreases n,
    {
        if n <= 0 {
            Seq::empty()
        } else {
            self.lookup_upto(n - 1) + match self.glyph_at(n - 1) {
                Some(_) => le16_bytes(self.block_upto(n - 1).len() as u16),
                None => seq![255u8, 255u8],
            }
        }
    }

    /// The bytes of this font inside a bundle.
    pub open spec fn font_bytes(&self) -> Seq<u8> {
        let block = self.block_upto(CHAR_TABLE_SIZE as int);
        seq![0x55u8, 0xAAu8, 0u8, 0xFFu8, 12u8] + self.name_bytes() + Seq::new(
            (12 - self.name_bytes().len()) as nat,
            |i: int| 0u8,
        ) + seq![0u8, 0u8, 0u8, 0u8, type_byte(self.font_type), self.spacing as u8] + le16_bytes(
            block.len() as u16,
        ) + self.lookup_upto(CHAR_TABLE_SIZE as int) + block
    }
}

/// Font `i` is the first whose name needs more than 12 bytes, and `e` is the
/// error that reports it.
pub open spec fn first_long_name(fonts: Seq<TdfFont>, i: int, e: FontError) -> bool {
    &&& 0 <= i < fonts.len()
    &&& fonts[i].name_bytes().len() > FONT_NAME_LEN
    &&& forall|j: int| 0 <= j < i ==> (#[trigger] fonts[j]).name_bytes().len() <= FONT_NAME_LEN
    &&& e == (FontError::TdfNameTooLong { len: fonts[i].name_bytes().len() as usize, max: 12 })
}

/// The bytes of fonts written one after another.
pub open spec fn fonts_bytes(fonts: Seq<TdfFont>) -> Seq<u8>
    decreases fonts.len(),
{
    if fonts.len() == 0 {
        Seq::empty()
    } else {
        fonts_bytes(fonts.drop_last()) + fonts.last().font_bytes()
    }
}

/// Appends the bytes of one part.
fn append_part(p: GlyphPart, ft: TdfFontType, out: &mut Vec<u8>)
    ensures
        final(out)@ == old(out)@ + encode_part(p, ft),
{
    let byte: u8 = match p {
        GlyphPart::NewLine => 13,
        GlyphPart::EndMarker => 38,
        GlyphPart::HardBlank => 255,
        GlyphPart::FillMarker => 64,
        GlyphPart::OutlineHole => 79,
        GlyphPart::OutlinePlaceholder(b) => b,
        GlyphPart::Skip => 32,
        GlyphPart::Char(c) => unicode_to_cp437(c),
        GlyphPart::AnsiChar { ch, .. } => unicode_to_cp437(ch),
    };
    out.push(byte);
    let cell = match p {
        GlyphPart::NewLine => false,
        GlyphPart::EndMarker => false,
        _ => true,
    };
    if cell && ft == TdfFontType::Color {
        let attr: u8 = match p {
            GlyphPart::AnsiChar { fg, bg, blink, .. } => (bg % 8) * 16 + fg % 16 + if blink {
                128u8
            } else {
                0u8
            },
            GlyphPart::HardBlank => 0,
            GlyphPart::Skip => 0,
            _ => 7,
        };
        out.push(attr);
    }
    assert(final(out)@ =~= old(out)@ + encode_part(p, ft));
}

/// Appends the bytes of one glyph.
fn append_glyph(g: &Glyph, ft: TdfFontType, out: &mut Vec<u8>)
    ensures
        final(out)@ == old(out)@ + encode_glyph(g@, ft),
{
    out.push(g.width as u8);
    out.push(g.height as u8);
    let ghost start = out@;
    let mut i: usize = 0;
    while i < g.parts.len()
        invariant
            i <= g.parts@.len(),
            out@ == start + encode_parts(g.parts@.subrange(0, i as int), ft),
        decreases g.parts.len() - i,
    {
        append_part(g.parts[i], ft, out);
        i = i + 1;
        assert(g.parts@.subrange(0, i as int).drop_last() =~= g.parts@.subrange(0, i - 1));
        assert(out@ =~= start + encode_parts(g.parts@.subrange(0, i as int), ft));
    }
    assert(g.parts@.subrange(0, i as int) =~= g.parts@);
    out.push(0);
    assert(out@ =~= old(out)@ + encode_glyph(g@, ft));
}

/// Appends the bytes of a slice.
fn append_bytes(src: &[u8], out: &mut Vec<u8>)
    ensures
        final(out)@ == old(out)@ + src@,
{
    let mut i: usize = 0;
    while i < src.len()
        invariant
            i <= src@.len(),
            out@ == old(out)@ + src@.subrange(0, i as int),
        decreases src.len() - i,
    {
        out.push(src[i]);
        i = i + 1;
        assert(out@ =~= old(out)@ + src@.subrange(0, i as int));
    }
    assert(src@.subrange(0, i as int) =~= src@);
}

/// Appends the bundle header.
fn append_header(out: &mut Vec<u8>)
    ensures
        final(out)@ == old(out)@ + tdf_header(),
{
    out.push(19);
    let mut k: usize = 0;
    while k < 18
        invariant
            k <= 18,
            out@ == old(out)@ + seq![19u8] + tdf_signature().subrange(0, k as int),
        decreases 18 - k,
    {
        out.push(signature_byte(k));
        k = k + 1;
        assert(out@ =~= old(out)@ + seq![19u8] + tdf_signature().subrange(0, k as int));
    }
    out.push(26);
    assert(out@ =~= old(out)@ + tdf_header());
}

impl TdfFont {
    /// Appends this font's bytes to a bundle; fails when the name needs more than
    /// 12 bytes.
    fn append_font_data(&self, out: &mut Vec<u8>) -> (r: Result<(), FontError>)
        requires
            self.wf(),
        ensures
            r is Ok <==> self.name_bytes().len() <= FONT_NAME_LEN,
            r is Ok ==> final(out)@ == old(out)@ + self.font_bytes(),
            r is Err ==> r == Err::<(), FontError>(
                FontError::TdfNameTooLong { len: self.name_bytes().len() as usize, max: 12 },
            ),
    {
        let nb = self.name.as_str().as_bytes();
        let name_len = nb.len();
        if name_len > FONT_NAME_LEN {
            return Err(FontError::TdfNameTooLong { len: name_len, max: FONT_NAME_LEN });
        }
        let mut lookup: Vec<u8> = Vec::new();
        let mut block: Vec<u8> = Vec::new();
        let mut i: usize = 0;
        while i < CHAR_TABLE_SIZE
            invariant
                self.wf(),
                i <= CHAR_TABLE_SIZE,
                lookup@ == self.lookup_upto(i as int),
                block@ == self.block_upto(i as int),
            decreases CHAR_TABLE_SIZE - i,
        {
            match self.glyph_in_slot(i) {
                Some(g) => {
                    let off = block.len() as u16;
                    lookup.push((off % 256) as u8);
                    lookup.push((off / 256) as u8);
                    append_glyph(&g, self.font_type, &mut block);
                },
                None => {
                    lookup.push(255);
                    lookup.push(255);
                },
            }
            i = i + 1;
            assert(lookup@ =~= self.lookup_upto(i as int));
        }
        let ghost start = out@;
        out.push(0x55);
        out.push(0xAA);
        out.push(0);
        out.push(0xFF);
        out.push(FONT_NAME_LEN as u8);
        append_bytes(nb, out);
        let mut k: usize = name_len;
        while k < FONT_NAME_LEN
            invariant
                name_len <= k <= FONT_NAME_LEN,
                out@ == start + seq![0x55u8, 0xAAu8, 0u8, 0xFFu8, 12u8] + nb@ + Seq::new(
                    (k - name_len) as nat,
                    |j: int| 0u8,
                ),
            decreases FONT_NAME_LEN - k,
        {
            out.push(0);
            k = k + 1;
            assert(out@ =~= start + seq![0x55u8, 0xAAu8, 0u8, 0xFFu8, 12u8] + nb@ + Seq::new(
                (k - name_len) as nat,
                |j: int| 0u8,
            ));
        }
        out.push(0);
        out.push(0);
        out.push(0);
        out.push(0);
        let type_code: u8 = match self.font_type {
            TdfFontType::Outline => 0,
            TdfFontType::Block => 1,
            TdfFontType::Color => 2,
        };
        out.push(type_code);
        out.push(self.spacing as u8);
        let size = block.len() as u16;
        out.push((size % 256) as u8);
        out.push((size / 256) as u8);
        out.append(&mut lookup);
        out.append(&mut block);
        assert(out@ =~= start + self.font_bytes());
        Ok(())
    }

    /// This font as a bundle of one (without the closing zero byte).
    pub fn to_bytes(&self) -> (r: Result<Vec<u8>, FontError>)
        requires
            self.wf(),
        ensures
            r is Ok <==> self.name_bytes().len() <= FONT_NAME_LEN,
            r matches Ok(v) ==> v@ == tdf_header() + self.font_bytes(),
            r is Err ==> r == Err::<Vec<u8>, FontError>(
                FontError::TdfNameTooLong { len: self.name_bytes().len() as usize, max: 12 },
            ),
    {
        let mut out: Vec<u8> = Vec::new();
        append_header(&mut out);
        match self.append_font_data(&mut out) {
            Ok(()) => Ok(out),
            Err(e) => Err(e),
        }
    }

    /// Several fonts as one bundle, closed by a zero byte; fails on the first font
    /// whose name needs more than 12 bytes.
    pub fn serialize_bundle(fonts: &[TdfFont]) -> (r: Result<Vec<u8>, FontError>)
        requires
            forall|i: int| 0 <= i < fonts@.len() ==> (#[trigger] fonts@[i]).wf(),
        ensures
            r is Ok <==> forall|i: int|
                0 <= i < fonts@.len() ==> (#[trigger] fonts@[i]).name_bytes().len() <= FONT_NAME_LEN,
            r matches Ok(v) ==> v@ == tdf_header() + fonts_bytes(fonts@) + seq![0u8],
            r matches Err(e) ==> exists|i: int| #[trigger] first_long_name(fonts@, i, e),
    {
        let mut out: Vec<u8> = Vec::new();
        append_header(&mut out);
        let mut i: usize = 0;
        while i < fonts.len()
            invariant
                forall|j: int| 0 <= j < fonts@.len() ==> (#[trigger] fonts@[j]).wf(),
                i <= fonts@.len(),
                forall|j: int| 0 <= j < i ==> (#[trigger] fonts@[j]).name_bytes().len() <= FONT_NAME_LEN,
                out@ == tdf_header() + fonts_bytes(fonts@.subrange(0, i as int)),
            decreases fonts.len() - i,
        {
            match fonts[i].append_font_data(&mut out) {
                Ok(()) => {},
                Err(e) => {
                    assert(first_long_name(fonts@, i as int, e));
                    return Err(e);
                },
            }
            i = i + 1;
            assert(fonts@.subrange(0, i as int).drop_last() =~= fonts@.subrange(0, i - 1));
        }
        assert(fonts@.subrange(0, i as int) =~= fonts@);
        out.push(0);
        Ok(out)
    }
}

impl TdfFont {
    /// The defined glyphs among the first `n` slots, with their characters, in order.
    pub open spec fn present_upto(&self, n: int) -> Seq<(char, GlyphModel)>
        decreases n,
    {
        if n <= 0 {
            Seq::empty()
        } else {
            self.present_upto(n - 1) + match self.glyph_at(n - 1) {
                Some(g) => seq![(slot_char(n - 1), g)],
                None => Seq::empty(),
            }
        }
    }

    /// The tallest glyph among the first `n` slots, 0 where there is none.
    pub open spec fn max_height_upto(&self, n: int) -> int
        decreases n,
    {
        if n <= 0 {
            0
        } else {
            let m = self.max_height_upto(n - 1);
            match self.glyph_at(n - 1) {
                Some(g) => if g.1 > m {
                    g.1 as int
                } else {
                    m
                },
                None => m,
            }
        }
    }

    /// Every defined glyph with its character, in character order.
    pub fn iter_glyphs(&self) -> (r: Vec<(char, Glyph)>)
        requires
            self.wf(),
        ensures
            r@.len() == self.present_upto(CHAR_TABLE_SIZE as int).len(),
            forall|k: int|
                0 <= k < r@.len() ==> ((#[trigger] r@[k]).0, r@[k].1@) == self.present_upto(
                    CHAR_TABLE_SIZE as int,
                )[k],
    {
        let mut r: Vec<(char, Glyph)> = Vec::new();
        let mut i: usize = 0;
        while i < CHAR_TABLE_SIZE
            invariant
                self.wf(),
                i <= CHAR_TABLE_SIZE,
                r@.len() == self.present_upto(i as int).len(),
                forall|k: int|
                    0 <= k < r@.len() ==> ((#[trigger] r@[k]).0, r@[k].1@) == self.present_upto(
                        i as int,
                    )[k],
            decreases CHAR_TABLE_SIZE - i,
        {
            match self.glyph_in_slot(i) {
                Some(g) => {
                    let ch = tdf_char(i);
                    r.push((ch, g));
                },
                None => {},
            }
            i = i + 1;
        }
        r
    }

    /// The tallest glyph's height, at least 1.
    pub fn max_height(&self) -> (r: usize)
        requires
            self.wf(),
        ensures
            r as int == if self.max_height_upto(CHAR_TABLE_SIZE as int) < 1 {
                1
            } else {
                self.max_height_upto(CHAR_TABLE_SIZE as int)
            },
    {
        let mut max_h: usize = 0;
        let mut i: usize = 0;
        while i < CHAR_TABLE_SIZE
            invariant
                self.wf(),
                i <= CHAR_TABLE_SIZE,
                max_h as int == self.max_height_upto(i as int),
            decreases CHAR_TABLE_SIZE - i,
        {
            match self.glyph_in_slot(i) {
                Some(g) => {
                    if g.height > max_h {
                        max_h = g.height;
                    }
                },
                None => {},
            }
            i = i + 1;
        }
        if max_h < 1 {
            1
        } else {
            max_h
        }
    }
}

} // verus!
