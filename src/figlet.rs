//! FIGlet fonts: parsing with lazy glyph decoding, editing, and writing back.
use vstd::prelude::*;

use std::sync::Arc;

use crate::archive::{
    zip_bytes_of, zip_count_of, zip_entry_bytes, zip_entry_count, zip_entry_name, zip_name_of,
};
use crate::error::FontError;
use crate::glyph::{Glyph, GlyphModel, GlyphPart};
use crate::text::{
    check_utf8, decimal, valid_prefix_len, decode_lossy, parse_usize, parse_usize_spec, push_decimal, split_words,
    str_chars, string_from_chars, utf8_lossy, words,
};
use vstd::utf8::{encode_utf8, valid_utf8};

verus! {

/// Number of glyph slots: one per byte code.
pub const FIGLET_SLOTS: usize = 256;

/// A FIGlet font: glyphs set by hand (the overlay) over glyphs decoded on demand
/// from a parsed buffer (the lazy source).
#[derive(Clone)]
pub struct FigletFont {
    pub name: String,
    pub header: String,
    pub comments: Vec<String>,
    pub hard_blank: char,
    pub glyphs: FigletGlyphs,
}

/// Glyph storage of a FIGlet font.
#[derive(Clone)]
pub struct FigletGlyphs {
    overlay: Vec<Option<Glyph>>,
    lazy: Option<LazyFigletSource>,
}

/// The parsed buffer, with the byte range of each glyph line.
#[derive(Clone)]
struct LazyFigletSource {
    bytes: Arc<Vec<u8>>,
    hard_blank: char,
    glyph_lines: Vec<(usize, usize)>,
    glyph_line_start: Vec<Option<usize>>,
    glyph_line_len: Vec<usize>,
    avg_width: Option<usize>,
}

/// The parts of one glyph line: the hard-blank character becomes a hard blank.
pub open spec fn line_parts(cs: Seq<char>, hb: char) -> Seq<GlyphPart> {
    Seq::new(cs.len(), |i: int| char_part_spec(cs[i], hb))
}

/// The part of one character of a line.
pub open spec fn char_part_spec(c: char, hb: char) -> GlyphPart {
    if c == hb {
        GlyphPart::HardBlank
    } else {
        GlyphPart::Char(c)
    }
}

/// The parts of a glyph made of the given lines, with a line break between two lines.
pub open spec fn rows_parts(rows: Seq<Seq<char>>, hb: char) -> Seq<GlyphPart>
    decreases rows.len(),
{
    if rows.len() == 0 {
        Seq::empty()
    } else {
        rows_parts(rows.drop_last(), hb) + (if rows.len() > 1 {
            seq![GlyphPart::NewLine]
        } else {
            Seq::empty()
        }) + line_parts(rows.last(), hb)
    }
}

/// The length in characters of the longest row.
pub open spec fn rows_char_width(rows: Seq<Seq<char>>) -> nat
    decreases rows.len(),
{
    if rows.len() == 0 {
        0
    } else {
        let m = rows_char_width(rows.drop_last());
        if rows.last().len() > m {
            rows.last().len()
        } else {
            m
        }
    }
}

/// The glyph decoded from a parsed font's lines: as wide as its widest line in
/// characters.
pub open spec fn figlet_glyph(rows: Seq<Seq<char>>, hb: char) -> GlyphModel {
    (rows_char_width(rows) as usize, rows.len() as usize, rows_parts(rows, hb))
}

impl LazyFigletSource {
    spec fn wf(&self) -> bool {
        &&& self.glyph_line_start@.len() == FIGLET_SLOTS
        &&& self.glyph_line_len@.len() == FIGLET_SLOTS
        &&& forall|i: int|
            0 <= i < FIGLET_SLOTS && #[trigger] self.glyph_line_start@[i] is Some
                ==> self.glyph_line_start@[i]->0 + self.glyph_line_len@[i] <= self.glyph_lines@.len()
        &&& forall|k: int|
            0 <= k < self.glyph_lines@.len() ==> (#[trigger] self.glyph_lines@[k]).0
                <= self.glyph_lines@[k].1 <= self.bytes@.len()
    }

    spec fn row(&self, k: int) -> Seq<char> {
        utf8_lossy(self.bytes@.subrange(self.glyph_lines@[k].0 as int, self.glyph_lines@[k].1 as int))
    }

    spec fn rows(&self, i: int) -> Seq<Seq<char>> {
        Seq::new(
            self.glyph_line_len@[i] as nat,
            |k: int| self.row(self.glyph_line_start@[i]->0 + k),
        )
    }

    spec fn glyph_at(&self, i: int) -> Option<GlyphModel> {
        if self.glyph_line_start@[i] is None {
            None
        } else {
            Some(figlet_glyph(self.rows(i), self.hard_blank))
        }
    }
}

/// The part of one character of a line.
fn char_part(c: char, hb: char) -> (p: GlyphPart)
    ensures
        p == char_part_spec(c, hb),
{
    if c == hb {
        GlyphPart::HardBlank
    } else {
        GlyphPart::Char(c)
    }
}

/// The parts of one line.
fn line_parts_exec(chars: &Vec<char>, hb: char) -> (r: Vec<GlyphPart>)
    ensures
        r@ == line_parts(chars@, hb),
{
    let mut r: Vec<GlyphPart> = Vec::new();
    let mut i: usize = 0;
    while i < chars.len()
        invariant
            i <= chars@.len(),
            r@.len() == i,
            forall|k: int| 0 <= k < i ==> #[trigger] r@[k] == line_parts(chars@, hb)[k],
        decreases chars.len() - i,
    {
        let part = char_part(chars[i], hb);
        assert(line_parts(chars@, hb).len() == chars@.len());
        assert(line_parts(chars@, hb)[i as int] == part);
        r.push(part);
        i = i + 1;
    }
    assert(r@ =~= line_parts(chars@, hb));
    r
}

/// Appends the parts of one line.
fn push_line_parts(chars: &Vec<char>, hb: char, parts: &mut Vec<GlyphPart>)
    ensures
        final(parts)@ == old(parts)@ + line_parts(chars@, hb),
{
    let mut v = line_parts_exec(chars, hb);
    parts.append(&mut v);
}

/// Decodes the glyph whose lines are `lines[start..start + len)`.
fn decode_rows(
    bytes: &Vec<u8>,
    lines: &Vec<(usize, usize)>,
    start: usize,
    len: usize,
    hb: char,
) -> (r: Glyph)
    requires
        start + len <= lines@.len(),
        forall|k: int|
            0 <= k < lines@.len() ==> (#[trigger] lines@[k]).0 <= lines@[k].1 <= bytes@.len(),
    ensures
        r@ == figlet_glyph(
            Seq::new(
                len as nat,
                |k: int|
                    utf8_lossy(
                        bytes@.subrange(lines@[start + k].0 as int, lines@[start + k].1 as int),
                    ),
            ),
            hb,
        ),
{
    let ghost all = Seq::new(
        len as nat,
        |k: int| utf8_lossy(bytes@.subrange(lines@[start + k].0 as int, lines@[start + k].1 as int)),
    );
    let nlines = lines.len();
    let mut parts: Vec<GlyphPart> = Vec::new();
    let mut max_width: usize = 0;
    let mut row: usize = 0;
    while row < len
        invariant
            nlines == lines@.len(),
            start + len <= lines@.len(),
            forall|k: int|
                0 <= k < lines@.len() ==> (#[trigger] lines@[k]).0 <= lines@[k].1 <= bytes@.len(),
            all == Seq::new(
                len as nat,
                |k: int|
                    utf8_lossy(
                        bytes@.subrange(lines@[start + k].0 as int, lines@[start + k].1 as int),
                    ),
            ),
            row <= len,
            parts@ == rows_parts(all.subrange(0, row as int), hb),
            max_width as nat == rows_char_width(all.subrange(0, row as int)),
        decreases len - row,
    {
        if row > 0 {
            parts.push(GlyphPart::NewLine);
        }
        let (a, e) = lines[start + row];
        let text = decode_lossy(&bytes.as_slice()[a..e]);
        let chars = str_chars(text.as_str());
        push_line_parts(&chars, hb, &mut parts);
        if chars.len() > max_width {
            max_width = chars.len();
        }
        row = row + 1;
        assert(all.subrange(0, row as int).drop_last() =~= all.subrange(0, row - 1));
        assert(parts@ =~= rows_parts(all.subrange(0, row as int), hb));
    }
    assert(all.subrange(0, len as int) =~= all);
    Glyph { width: max_width, height: len, parts }
}

impl FigletFont {
    /// The font's internal consistency: one overlay entry per byte code, and a lazy
    /// source whose line ranges lie inside its buffer.
    pub closed spec fn wf(&self) -> bool {
        &&& self.glyphs.overlay@.len() == FIGLET_SLOTS
        &&& self.glyphs.lazy matches Some(l) ==> l.wf()
    }

    /// Whether byte code `i` has a glyph.
    pub closed spec fn has(&self, i: int) -> bool {
        self.glyphs.overlay@[i] is Some || (self.glyphs.lazy matches Some(l)
            && l.glyph_line_start@[i] is Some)
    }

    /// The glyph of byte code `i`: the overlay's where it has one, else the one
    /// decoded from the lazy source.
    pub closed spec fn glyph_at(&self, i: int) -> Option<GlyphModel> {
        match self.glyphs.overlay@[i] {
            Some(g) => Some(g@),
            None => match self.glyphs.lazy {
                Some(l) => l.glyph_at(i),
                None => None,
            },
        }
    }

    /// A code has a character exactly when it has a glyph.
    pub proof fn lemma_has_glyph(&self, i: int)
        ensures
            self.has(i) == (self.glyph_at(i) is Some),
    {
    }

    /// The spacing hint that parsing computed, if any.
    pub closed spec fn parsed_spacing(&self) -> Option<usize> {
        match self.glyphs.lazy {
            Some(l) => l.avg_width,
            None => None,
        }
    }

    /// How many of the first `n` byte codes have a glyph.
    pub open spec fn count_upto(&self, n: int) -> nat
        decreases n,
    {
        if n <= 0 {
            0
        } else {
            self.count_upto(n - 1) + if self.has(n - 1) { 1nat } else { 0nat }
        }
    }

    /// The slot of a character: its code where that is below 256.
    pub open spec fn slot_of(ch: char) -> Option<int> {
        if (ch as u32) < 256 {
            Some(ch as u32 as int)
        } else {
            None
        }
    }

    /// The glyph of character `ch`.
    pub open spec fn glyph_of(&self, ch: char) -> Option<GlyphModel> {
        match FigletFont::slot_of(ch) {
            Some(i) => self.glyph_at(i),
            None => None,
        }
    }

    /// Whether the font has character `ch`.
    pub open spec fn has_char_spec(&self, ch: char) -> bool {
        FigletFont::slot_of(ch) matches Some(i) && self.has(i)
    }

    /// An empty font with hard blank `$`.
    pub fn new(name: &str) -> (r: Self)
        ensures
            r.wf(),
            r.name@ == name@,
            r.header@ == Seq::<char>::empty(),
            r.comments@.len() == 0,
            r.hard_blank == '$',
            r.parsed_spacing() is None,
            r.spacing_spec() is None,
            forall|i: int| 0 <= i < FIGLET_SLOTS ==> !#[trigger] r.has(i) && r.glyph_at(i) is None,
    {
        let r = FigletFont {
            name: name.to_owned(),
            header: String::new(),
            comments: Vec::new(),
            hard_blank: '$',
            glyphs: FigletGlyphs { overlay: empty_figlet_overlay(), lazy: None },
        };
        proof {
            r.lemma_empty_width_sum(FIGLET_SLOTS as int);
        }
        r
    }

    proof fn lemma_empty_width_sum(&self, n: int)
        requires
            0 <= n <= self.glyphs.overlay@.len(),
            forall|j: int| 0 <= j < n ==> #[trigger] self.glyphs.overlay@[j] is None,
        ensures
            self.overlay_width_sum(n) == (0int, 0int),
        decreases n,
    {
        if n > 0 {
            self.lemma_empty_width_sum(n - 1);
        }
    }

    /// The glyph of byte code `idx`.
    fn glyph_in_slot(&self, idx: usize) -> (r: Option<Glyph>)
        requires
            self.wf(),
            idx < FIGLET_SLOTS,
        ensures
            r matches Some(g) ==> self.glyph_at(idx as int) == Some(g@),
            r is None ==> self.glyph_at(idx as int) is None,
    {
        match &self.glyphs.overlay[idx] {
            Some(g) => {
                return Some(g.copy());
            },
            None => {},
        }
        match &self.glyphs.lazy {
            None => None,
            Some(lazy) => {
                let start = match lazy.glyph_line_start[idx] {
                    Some(st) => st,
                    None => {
                        return None;
                    },
                };
                let len = lazy.glyph_line_len[idx];
                let g = decode_rows(&*lazy.bytes, &lazy.glyph_lines, start, len, lazy.hard_blank);
                proof {
                    assert(lazy.rows(idx as int) =~= Seq::new(
                        len as nat,
                        |k: int|
                            utf8_lossy(
                                lazy.bytes@.subrange(
                                    lazy.glyph_lines@[start + k].0 as int,
                                    lazy.glyph_lines@[start + k].1 as int,
                                ),
                            ),
                    ));
                }
                Some(g)
            },
        }
    }

    /// The glyph of `ch`, for codes below 256.
    pub fn glyph(&self, ch: char) -> (r: Option<Glyph>)
        requires
            self.wf(),
        ensures
            r matches Some(g) ==> self.glyph_of(ch) == Some(g@),
            r is None ==> self.glyph_of(ch) is None,
    {
        let code = ch as u32;
        if code > 255 {
            return None;
        }
        self.glyph_in_slot(code as usize)
    }

    /// Whether the font has character `ch`.
    pub fn has_char(&self, ch: char) -> (r: bool)
        requires
            self.wf(),
        ensures
            r == self.has_char_spec(ch),
            r == (self.glyph_of(ch) is Some),
    {
        proof {
            if let Some(i) = FigletFont::slot_of(ch) {
                self.lemma_has_glyph(i);
            }
        }
        let code = ch as u32;
        if code > 255 {
            return false;
        }
        let idx = code as usize;
        if self.glyphs.overlay[idx].is_some() {
            return true;
        }
        match &self.glyphs.lazy {
            Some(lazy) => lazy.glyph_line_start[idx].is_some(),
            None => false,
        }
    }

    /// The number of byte codes with a glyph.
    pub fn glyph_count(&self) -> (r: usize)
        requires
            self.wf(),
        ensures
            r == self.count_upto(FIGLET_SLOTS as int),
    {
        let mut count: usize = 0;
        let mut i: usize = 0;
        while i < FIGLET_SLOTS
            invariant
                self.wf(),
                i <= FIGLET_SLOTS,
                count == self.count_upto(i as int),
                count <= i,
            decreases FIGLET_SLOTS - i,
        {
            let present = if self.glyphs.overlay[i].is_some() {
                true
            } else {
                match &self.glyphs.lazy {
                    Some(lazy) => lazy.glyph_line_start[i].is_some(),
                    None => false,
                }
            };
            if present {
                count = count + 1;
            }
            i = i + 1;
        }
        count
    }

    /// Sets the glyph of byte code `ch` from its lines; the hard-blank character
    /// becomes a hard blank, the width is the longest line in characters.
    pub fn add_raw_char(&mut self, ch: u8, raw_lines: &[&str])
        requires
            old(self).wf(),
        ensures
            final(self).wf(),
            final(self).name == old(self).name,
            final(self).header == old(self).header,
            final(self).comments == old(self).comments,
            final(self).hard_blank == old(self).hard_blank,
            final(self).parsed_spacing() == old(self).parsed_spacing(),
            final(self).has(ch as int),
            final(self).glyph_at(ch as int) == Some(
                (
                    rows_char_width(Seq::new(raw_lines@.len(), |k: int| raw_lines@[k]@)) as usize,
                    raw_lines@.len() as usize,
                    rows_parts(Seq::new(raw_lines@.len(), |k: int| raw_lines@[k]@), old(self).hard_blank),
                ),
            ),
            forall|i: int|
                0 <= i < FIGLET_SLOTS && i != ch ==> #[trigger] final(self).has(i) == old(self).has(i)
                    && final(self).glyph_at(i) == old(self).glyph_at(i),
    {
        let ghost all = Seq::new(raw_lines@.len(), |k: int| raw_lines@[k]@);
        let hb = self.hard_blank;
        let mut parts: Vec<GlyphPart> = Vec::new();
        let mut max_width: usize = 0;
        let mut row: usize = 0;
        while row < raw_lines.len()
            invariant
                all == Seq::new(raw_lines@.len(), |k: int| raw_lines@[k]@),
                row <= raw_lines@.len(),
                parts@ == rows_parts(all.subrange(0, row as int), hb),
                max_width as nat == rows_char_width(all.subrange(0, row as int)),
            decreases raw_lines.len() - row,
        {
            if row > 0 {
                parts.push(GlyphPart::NewLine);
            }
            let line: &str = raw_lines[row];
            let chars = str_chars(line);
            let w = chars.len();
            assert(all.subrange(0, row + 1).last() == line@);
            if w > max_width {
                max_width = w;
            }
            push_line_parts(&chars, hb, &mut parts);
            row = row + 1;
            assert(all.subrange(0, row as int).drop_last() =~= all.subrange(0, row - 1));
            assert(parts@ =~= rows_parts(all.subrange(0, row as int), hb));
        }
        assert(all.subrange(0, row as int) =~= all);
        let glyph = Glyph { width: max_width, height: raw_lines.len(), parts };
        self.glyphs.overlay.set(ch as usize, Some(glyph));
    }

    /// Sum and number of the overlay's glyph widths.
    closed spec fn overlay_width_sum(&self, n: int) -> (int, int)
        decreases n,
    {
        if n <= 0 {
            (0, 0)
        } else {
            let (s, c) = self.overlay_width_sum(n - 1);
            match self.glyphs.overlay@[n - 1] {
                Some(g) => (s + g.width, c + 1),
                None => (s, c),
            }
        }
    }

    /// The spacing hint: the average glyph width computed at parse time, else the
    /// average width of the overlay's glyphs, `None` where there is none.
    pub closed spec fn spacing_spec(&self) -> Option<usize> {
        if self.parsed_spacing() is Some {
            self.parsed_spacing()
        } else {
            let (s, c) = self.overlay_width_sum(FIGLET_SLOTS as int);
            if c == 0 {
                None
            } else {
                Some((s / c) as usize)
            }
        }
    }

    /// The spacing hint: the average glyph width computed at parse time, else the
    /// average width of the overlay's glyphs.
    pub fn spacing(&self) -> (r: Option<usize>)
        requires
            self.wf(),
        ensures
            r == self.spacing_spec(),
    {
        match &self.glyphs.lazy {
            Some(lazy) => {
                if lazy.avg_width.is_some() {
                    return lazy.avg_width;
                }
            },
            None => {},
        }
        let mut total: u128 = 0;
        let mut count: u128 = 0;
        let mut i: usize = 0;
        while i < FIGLET_SLOTS
            invariant
                self.wf(),
                i <= FIGLET_SLOTS,
                (total as int, count as int) == self.overlay_width_sum(i as int),
                count <= i,
                total <= i * (usize::MAX as int),
            decreases FIGLET_SLOTS - i,
        {
            match &self.glyphs.overlay[i] {
                Some(g) => {
                    total = total + g.width as u128;
                    count = count + 1;
                },
                None => {},
            }
            i = i + 1;
        }
        if count == 0 {
            None
        } else {
            proof {
                lemma_avg_fits(total as int, count as int, self, FIGLET_SLOTS as int);
            }
            Some((total / count) as usize)
        }
    }
}

proof fn lemma_avg_fits(total: int, count: int, f: &FigletFont, n: int)
    requires
        (total, count) == f.overlay_width_sum(n),
        count > 0,
    ensures
        total / count <= usize::MAX,
{
    lemma_sum_bound(f, n);
    assert(total / count <= usize::MAX) by (nonlinear_arith)
        requires
            total <= count * (usize::MAX as int),
            count > 0,
            0 <= total,
    ;
}

proof fn lemma_sum_bound(f: &FigletFont, n: int)
    ensures
        0 <= f.overlay_width_sum(n).0 <= f.overlay_width_sum(n).1 * (usize::MAX as int),
        0 <= f.overlay_width_sum(n).1,
    decreases n,
{
    if n > 0 {
        lemma_sum_bound(f, n - 1);
        let (s, c) = f.overlay_width_sum(n - 1);
        assert((c + 1) * (usize::MAX as int) == c * (usize::MAX as int) + usize::MAX) by (nonlinear_arith);
    }
}

/// An overlay with no glyph.
fn empty_figlet_overlay() -> (r: Vec<Option<Glyph>>)
    ensures
        r@.len() == FIGLET_SLOTS,
        forall|j: int| 0 <= j < FIGLET_SLOTS ==> #[trigger] r@[j] is None,
{
    let mut overlay: Vec<Option<Glyph>> = Vec::new();
    let mut i: usize = 0;
    while i < FIGLET_SLOTS
        invariant
            i <= FIGLET_SLOTS,
            overlay@.len() == i,
            forall|j: int| 0 <= j < i ==> #[trigger] overlay@[j] is None,
        decreases FIGLET_SLOTS - i,
    {
        overlay.push(None);
        i = i + 1;
    }
    overlay
}

/// `end`, less one where the line ends with a carriage return.
pub open spec fn cr_trim(b: Seq<u8>, start: int, end: int) -> int {
    if end > start && b[end - 1] == 13 {
        end - 1
    } else {
        end
    }
}

/// The line ranges from `i` on, the current line starting at `start`: every `\n`
/// ends a line, a trailing `\r` is dropped, and a last line without `\n` counts
/// only when it is not empty.
pub open spec fn lines_from(b: Seq<u8>, start: int, i: int) -> Seq<(usize, usize)>
    decreases b.len() - i,
{
    if i >= b.len() {
        let e = cr_trim(b, start, b.len() as int);
        if start < e {
            seq![(start as usize, e as usize)]
        } else {
            Seq::empty()
        }
    } else if b[i] == 10 {
        seq![(start as usize, cr_trim(b, start, i) as usize)] + lines_from(b, i + 1, i + 1)
    } else {
        lines_from(b, start, i + 1)
    }
}

/// The line ranges of a buffer.
pub open spec fn line_ranges(b: Seq<u8>) -> Seq<(usize, usize)> {
    lines_from(b, 0, 0)
}

/// Ranges that lie inside a buffer of length `n`.
pub open spec fn ranges_within(r: Seq<(usize, usize)>, n: int) -> bool {
    forall|k: int| 0 <= k < r.len() ==> (#[trigger] r[k]).0 <= r[k].1 <= n
}

proof fn lemma_lines_within(b: Seq<u8>, start: int, i: int)
    requires
        0 <= start <= i <= b.len(),
        b.len() <= usize::MAX,
    ensures
        ranges_within(lines_from(b, start, i), b.len() as int),
    decreases b.len() - i,
{
    if i < b.len() {
        if b[i] == 10 {
            lemma_lines_within(b, i + 1, i + 1);
            let rest = lines_from(b, i + 1, i + 1);
            let all = seq![(start as usize, cr_trim(b, start, i) as usize)] + rest;
            assert forall|k: int| 0 <= k < all.len() implies (#[trigger] all[k]).0 <= all[k].1
                <= b.len() by {
                if k > 0 {
                    assert(all[k] == rest[k - 1]);
                }
            }
        } else {
            lemma_lines_within(b, start, i + 1);
        }
    }
}

/// Splits a buffer into line ranges without copying.
fn compute_line_ranges(bytes: &Vec<u8>) -> (r: Vec<(usize, usize)>)
    ensures
        r@ == line_ranges(bytes@),
        ranges_within(r@, bytes@.len() as int),
{
    let len = bytes.len();
    let mut out: Vec<(usize, usize)> = Vec::new();
    let mut start: usize = 0;
    let mut i: usize = 0;
    proof {
        lemma_lines_within(bytes@, 0, 0);
    }
    while i < len
        invariant
            len == bytes@.len(),
            start <= i <= len,
            out@ + lines_from(bytes@, start as int, i as int) == line_ranges(bytes@),
            ranges_within(line_ranges(bytes@), len as int),
        decreases len - i,
    {
        if bytes[i] == 10 {
            let mut end = i;
            if end > start && bytes[end - 1] == 13 {
                end = end - 1;
            }
            let ghost old_out = out@;
            out.push((start, end));
            assert(out@ + lines_from(bytes@, i + 1, i + 1) =~= old_out + lines_from(
                bytes@,
                start as int,
                i as int,
            ));
            start = i + 1;
        }
        i = i + 1;
    }
    let mut end = len;
    if end > start && bytes[end - 1] == 13 {
        end = end - 1;
    }
    if start != end {
        out.push((start, end));
        assert(out@ =~= line_ranges(bytes@));
    } else {
        assert(out@ =~= line_ranges(bytes@));
    }
    out
}

/// Reads the lines of one glyph from line `idx` on: at most `k` lines, each
/// ending with `@`, a line ending with `@@` closing the glyph early; gives the
/// ranges without their markers and the index after the last line read.
pub open spec fn read_rows(b: Seq<u8>, lines: Seq<(usize, usize)>, idx: int, k: int) -> (
    Result<Seq<(usize, usize)>, FontError>,
    int,
)
    decreases k,
{
    if k <= 0 {
        (Ok(Seq::empty()), idx)
    } else if idx < 0 || idx >= lines.len() {
        (Err(FontError::FigletIncompleteChar), idx)
    } else {
        let a = lines[idx].0 as int;
        let e = lines[idx].1 as int;
        if e - a >= 2 && b[e - 1] == 64 && b[e - 2] == 64 {
            (Ok(seq![(a as usize, (e - 2) as usize)]), idx + 1)
        } else if e - a >= 1 && b[e - 1] == 64 {
            let (rest, n) = read_rows(b, lines, idx + 1, k - 1);
            (
                match rest {
                    Ok(rs) => Ok(seq![(a as usize, (e - 1) as usize)] + rs),
                    Err(x) => Err(x),
                },
                n,
            )
        } else {
            (Err(FontError::FigletMissingMarker), idx + 1)
        }
    }
}

/// `(Ok(done + rs), n)` for `(Ok(rs), n)`, the error otherwise.
pub open spec fn prepend_rows(
    done: Seq<(usize, usize)>,
    r: (Result<Seq<(usize, usize)>, FontError>, int),
) -> (Result<Seq<(usize, usize)>, FontError>, int) {
    (
        match r.0 {
            Ok(rs) => Ok(done + rs),
            Err(x) => Err(x),
        },
        r.1,
    )
}

/// Reads the line ranges of one glyph, advancing `line_idx`.
fn read_character_ranges(
    lines: &Vec<(usize, usize)>,
    line_idx: &mut usize,
    height: usize,
    bytes: &Vec<u8>,
) -> (r: Result<Vec<(usize, usize)>, FontError>)
    requires
        ranges_within(lines@, bytes@.len() as int),
        *old(line_idx) <= lines@.len(),
    ensures
        *final(line_idx) <= lines@.len(),
        *final(line_idx) as int == read_rows(bytes@, lines@, *old(line_idx) as int, height as int).1,
        match (r, read_rows(bytes@, lines@, *old(line_idx) as int, height as int).0) {
            (Ok(v), Ok(s)) => v@ == s && ranges_within(v@, bytes@.len() as int),
            (Err(e1), Err(e2)) => e1 == e2,
            _ => false,
        },
{
    let ghost idx0 = *line_idx as int;
    let mut out: Vec<(usize, usize)> = Vec::new();
    let mut n: usize = 0;
    while n < height
        invariant
            idx0 == *old(line_idx) as int,
            ranges_within(lines@, bytes@.len() as int),
            *line_idx <= lines@.len(),
            n <= height,
            ranges_within(out@, bytes@.len() as int),
            read_rows(bytes@, lines@, idx0, height as int) == prepend_rows(
                out@,
                read_rows(bytes@, lines@, *line_idx as int, (height - n) as int),
            ),
        decreases height - n,
    {
        if *line_idx >= lines.len() {
            return Err(FontError::FigletIncompleteChar);
        }
        let (a, e) = lines[*line_idx];
        *line_idx = *line_idx + 1;
        if e - a >= 2 && bytes[e - 1] == 64 && bytes[e - 2] == 64 {
            let ghost before = out@;
            out.push((a, e - 2));
            assert(before + seq![(a, (e - 2) as usize)] =~= out@);
            return Ok(out);
        }
        if e - a >= 1 && bytes[e - 1] == 64 {
            let ghost before = out@;
            out.push((a, e - 1));
            proof {
                match read_rows(bytes@, lines@, *line_idx as int, (height - n - 1) as int).0 {
                    Ok(rs) => {
                        assert(before + (seq![(a, (e - 1) as usize)] + rs) =~= out@ + rs);
                    },
                    Err(_) => {},
                }
            }
        } else {
            return Err(FontError::FigletMissingMarker);
        }
        n = n + 1;
    }
    assert(out@ + Seq::<(usize, usize)>::empty() =~= out@);
    Ok(out)
}

/// The glyphs for codes `ch..=126`, read one after another from line `idx` on
/// until one fails; gives their line ranges and the line index after the last
/// read (the failed one included).
pub open spec fn required_glyphs(
    b: Seq<u8>,
    lines: Seq<(usize, usize)>,
    h: int,
    idx: int,
    ch: int,
) -> (Seq<Seq<(usize, usize)>>, int)
    decreases 127 - ch,
{
    if ch < 32 || ch > 126 {
        (Seq::empty(), idx)
    } else {
        let (res, n) = read_rows(b, lines, idx, h);
        match res {
            Err(_) => (Seq::empty(), n),
            Ok(rs) => {
                let (rest, m) = required_glyphs(b, lines, h, n, ch + 1);
                (seq![rs] + rest, m)
            },
        }
    }
}

/// The error at which reading the glyphs for codes `ch..=126` stops, `None` when
/// all of them are read.
pub open spec fn required_stop(
    b: Seq<u8>,
    lines: Seq<(usize, usize)>,
    h: int,
    idx: int,
    ch: int,
) -> Option<FontError>
    decreases 127 - ch,
{
    if ch < 32 || ch > 126 {
        None
    } else {
        let (res, n) = read_rows(b, lines, idx, h);
        match res {
            Err(e) => Some(e),
            Ok(_) => required_stop(b, lines, h, n, ch + 1),
        }
    }
}

/// Whether a required glyph of the file has a line without its `@` marker: the
/// line index after the comments is `1 + ncom`.
pub open spec fn fig_marker_missing(b: Seq<u8>, hdr: (Seq<char>, char, usize, usize)) -> bool {
    let lines = line_ranges(b);
    let ncom = if hdr.3 < lines.len() - 1 { hdr.3 as int } else { lines.len() - 1 };
    required_stop(b, lines, hdr.2 as int, 1 + ncom, 32) == Some(FontError::FigletMissingMarker)
}

/// The widest range of a glyph, in bytes.
pub open spec fn ranges_width(rs: Seq<(usize, usize)>) -> int
    decreases rs.len(),
{
    if rs.len() == 0 {
        0
    } else {
        let m = ranges_width(rs.drop_last());
        let w = rs.last().1 - rs.last().0;
        if w > m {
            w
        } else {
            m
        }
    }
}

/// The sum of the widest ranges of the glyphs.
pub open spec fn widths_sum(t: Seq<Seq<(usize, usize)>>) -> int
    decreases t.len(),
{
    if t.len() == 0 {
        0
    } else {
        widths_sum(t.drop_last()) + ranges_width(t.last())
    }
}

/// The lines of a glyph, decoded.
pub open spec fn decoded_rows(b: Seq<u8>, rs: Seq<(usize, usize)>) -> Seq<Seq<char>> {
    Seq::new(rs.len(), |j: int| utf8_lossy(b.subrange(rs[j].0 as int, rs[j].1 as int)))
}

/// The bytes `flf2a`.
pub open spec fn flf_signature() -> Seq<u8> {
    seq![102u8, 108u8, 102u8, 50u8, 97u8]
}

/// What a FIGlet header line says: its text, the hard blank (its sixth
/// character, `$` where it has none), the height and the comment-line count
/// (0 where that field is no number); or why it is refused.
pub open spec fn fig_header(b: Seq<u8>) -> Result<(Seq<char>, char, usize, usize), FontError> {
    let lines = line_ranges(b);
    if lines.len() == 0 {
        Err(FontError::FigletMissingHeader)
    } else {
        let hl = b.subrange(lines[0].0 as int, lines[0].1 as int);
        if hl.len() < 5 || hl.subrange(0, 5) != flf_signature() {
            Err(FontError::FigletInvalidSignature)
        } else {
            let text = utf8_lossy(hl);
            let hb = if text.len() > 5 { text[5] } else { '$' };
            let ws = words(text);
            if ws.len() < 6 {
                Err(FontError::FigletIncompleteHeader)
            } else {
                match parse_usize_spec(ws[1]) {
                    None => Err(FontError::FigletMissingHeight),
                    Some(h) => Ok(
                        (
                            text,
                            hb,
                            h,
                            match parse_usize_spec(ws[5]) {
                                Some(c) => c,
                                None => 0,
                            },
                        ),
                    ),
                }
            }
        }
    }
}

impl FigletFont {
    /// This font is the one that parsing buffer `b` with header `hdr` gives.
    pub open spec fn parsed_from(&self, b: Seq<u8>, hdr: (Seq<char>, char, usize, usize)) -> bool {
        let lines = line_ranges(b);
        let ncom = if hdr.3 < lines.len() - 1 { hdr.3 as int } else { lines.len() - 1 };
        let (req, after) = required_glyphs(b, lines, hdr.2 as int, 1 + ncom, 32);
        let extra = read_rows(b, lines, after, hdr.2 as int).0;
        let all = match extra {
            Ok(rs) => req.push(rs),
            Err(_) => req,
        };
        &&& self.wf()
        &&& self.name@ == seq!['f', 'i', 'g', 'l', 'e', 't']
        &&& self.header@ == hdr.0
        &&& self.hard_blank == hdr.1
        &&& self.comments@.len() == ncom
        &&& forall|k: int|
            0 <= k < ncom ==> (#[trigger] self.comments@[k])@ == utf8_lossy(
                b.subrange(lines[1 + k].0 as int, lines[1 + k].1 as int),
            )
        &&& forall|k: int|
            0 <= k < req.len() ==> self.has(32 + k) && #[trigger] self.glyph_at(32 + k) == Some(
                figlet_glyph(decoded_rows(b, req[k]), hdr.1),
            )
        &&& (extra matches Ok(rs) ==> self.has(127) && self.glyph_at(127) == Some(
            figlet_glyph(decoded_rows(b, rs), hdr.1),
        ))
        &&& forall|c: int|
            0 <= c < FIGLET_SLOTS && !(32 <= c < 32 + req.len()) && !(c == 127 && extra is Ok)
                ==> !#[trigger] self.has(c)
        &&& self.parsed_spacing() == if all.len() == 0 {
            None::<usize>
        } else {
            Some((widths_sum(all) / (all.len() as int)) as usize)
        }
    }
}

/// `r` is what parsing buffer `b` as a FIGlet file gives: an UTF-8 error for
/// invalid text, the header's refusal, or the font that the buffer describes.
pub open spec fn parse_outcome(b: Seq<u8>, r: Result<FigletFont, FontError>) -> bool {
    &&& (!valid_utf8(b) ==> (r matches Err(FontError::Utf8(n)) && valid_prefix_len(b, n as int)))
    &&& valid_utf8(b) ==> match fig_header(b) {
        Err(e) => r == Err::<FigletFont, FontError>(e),
        Ok(hdr) => if fig_marker_missing(b, hdr) {
            r == Err::<FigletFont, FontError>(FontError::FigletMissingMarker)
        } else {
            r matches Ok(f) && f.parsed_from(b, hdr)
        },
    }
}

/// The widest range of a glyph, in bytes.
fn max_range_width(rs: &Vec<(usize, usize)>) -> (r: usize)
    requires
        forall|k: int| 0 <= k < rs@.len() ==> (#[trigger] rs@[k]).0 <= rs@[k].1,
    ensures
        r == ranges_width(rs@),
{
    let mut m: usize = 0;
    let mut i: usize = 0;
    while i < rs.len()
        invariant
            i <= rs@.len(),
            forall|k: int| 0 <= k < rs@.len() ==> (#[trigger] rs@[k]).0 <= rs@[k].1,
            m == ranges_width(rs@.subrange(0, i as int)),
        decreases rs.len() - i,
    {
        let (a, e) = rs[i];
        if e - a > m {
            m = e - a;
        }
        i = i + 1;
        assert(rs@.subrange(0, i as int).drop_last() =~= rs@.subrange(0, i - 1));
    }
    assert(rs@.subrange(0, i as int) =~= rs@);
    m
}

proof fn lemma_ranges_width_bound(rs: Seq<(usize, usize)>, n: int)
    requires
        ranges_within(rs, n),
        0 <= n,
    ensures
        0 <= ranges_width(rs) <= n,
    decreases rs.len(),
{
    if rs.len() > 0 {
        assert(ranges_within(rs.drop_last(), n));
        lemma_ranges_width_bound(rs.drop_last(), n);
        assert(rs.last() == rs[rs.len() - 1]);
    }
}

/// The parse state of the glyph table: the glyphs read so far stand in
/// `starts`, `lens` and `glyph_lines`.
spec fn table_holds(
    starts: Seq<Option<usize>>,
    lens: Seq<usize>,
    glyph_lines: Seq<(usize, usize)>,
    tbl: Seq<Seq<(usize, usize)>>,
    extra: Option<Seq<(usize, usize)>>,
) -> bool {
    &&& starts.len() == FIGLET_SLOTS
    &&& lens.len() == FIGLET_SLOTS
    &&& tbl.len() <= 95
    &&& forall|c: int|
        0 <= c < FIGLET_SLOTS && !(32 <= c < 32 + tbl.len()) && !(c == 127 && extra is Some)
            ==> #[trigger] starts[c] is None
    &&& forall|k: int|
        0 <= k < tbl.len() ==> #[trigger] starts[32 + k] is Some && starts[32 + k]->0 + lens[32
            + k] <= glyph_lines.len() && lens[32 + k] == tbl[k].len() && forall|j: int|
            0 <= j < lens[32 + k] ==> glyph_lines[starts[32 + k]->0 + j] == #[trigger] tbl[k][j]
    &&& (extra matches Some(rs) ==> starts[127] is Some && starts[127]->0 + lens[127]
        <= glyph_lines.len() && lens[127] == rs.len() && forall|j: int|
        0 <= j < lens[127] ==> glyph_lines[starts[127]->0 + j] == #[trigger] rs[j])
}

proof fn lemma_table_record(
    starts0: Seq<Option<usize>>,
    lens0: Seq<usize>,
    gl0: Seq<(usize, usize)>,
    tbl0: Seq<Seq<(usize, usize)>>,
    ch: int,
    rs: Seq<(usize, usize)>,
    starts: Seq<Option<usize>>,
    lens: Seq<usize>,
    gl: Seq<(usize, usize)>,
)
    requires
        table_holds(starts0, lens0, gl0, tbl0, None),
        ch == 32 + tbl0.len(),
        ch <= 126,
        starts == starts0.update(ch, Some(gl0.len() as usize)),
        lens == lens0.update(ch, rs.len() as usize),
        gl == gl0 + rs,
        gl.len() <= usize::MAX,
    ensures
        table_holds(starts, lens, gl, tbl0.push(rs), None),
{
    let tbl = tbl0.push(rs);
    assert forall|k: int| 0 <= k < tbl.len() implies #[trigger] starts[32 + k] is Some && starts[32
        + k]->0 + lens[32 + k] <= gl.len() && lens[32 + k] == tbl[k].len() && forall|j: int|
        0 <= j < lens[32 + k] ==> gl[starts[32 + k]->0 + j] == #[trigger] tbl[k][j] by {
        if k < tbl0.len() {
            assert(tbl[k] == tbl0[k]);
            assert(starts[32 + k] == starts0[32 + k]);
            assert(lens[32 + k] == lens0[32 + k]);
            assert forall|j: int| 0 <= j < lens[32 + k] implies gl[starts[32 + k]->0 + j]
                == #[trigger] tbl[k][j] by {
                assert(gl[starts0[32 + k]->0 + j] == gl0[starts0[32 + k]->0 + j]);
                assert(gl0[starts0[32 + k]->0 + j] == tbl0[k][j]);
            }
        } else {
            assert(tbl[k] == rs);
            assert forall|j: int| 0 <= j < lens[32 + k] implies gl[starts[32 + k]->0 + j]
                == #[trigger] tbl[k][j] by {
                assert(gl[gl0.len() + j] == rs[j]);
            }
        }
    }
}

proof fn lemma_table_extra(
    starts0: Seq<Option<usize>>,
    lens0: Seq<usize>,
    gl0: Seq<(usize, usize)>,
    tbl: Seq<Seq<(usize, usize)>>,
    rs: Seq<(usize, usize)>,
    starts: Seq<Option<usize>>,
    lens: Seq<usize>,
    gl: Seq<(usize, usize)>,
)
    requires
        table_holds(starts0, lens0, gl0, tbl, None),
        starts == starts0.update(127, Some(gl0.len() as usize)),
        lens == lens0.update(127, rs.len() as usize),
        gl == gl0 + rs,
        gl.len() <= usize::MAX,
    ensures
        table_holds(starts, lens, gl, tbl, Some(rs)),
{
    assert forall|k: int| 0 <= k < tbl.len() implies #[trigger] starts[32 + k] is Some && starts[32
        + k]->0 + lens[32 + k] <= gl.len() && lens[32 + k] == tbl[k].len() && forall|j: int|
        0 <= j < lens[32 + k] ==> gl[starts[32 + k]->0 + j] == #[trigger] tbl[k][j] by {
        assert(starts[32 + k] == starts0[32 + k]);
        assert(lens[32 + k] == lens0[32 + k]);
        assert forall|j: int| 0 <= j < lens[32 + k] implies gl[starts[32 + k]->0 + j]
            == #[trigger] tbl[k][j] by {
            assert(gl[starts0[32 + k]->0 + j] == gl0[starts0[32 + k]->0 + j]);
        }
    }
    assert forall|j: int| 0 <= j < lens[127] implies gl[starts[127]->0 + j] == #[trigger] rs[j] by {
        assert(gl[gl0.len() + j] == rs[j]);
    }
}

proof fn lemma_within_append(a: Seq<(usize, usize)>, b: Seq<(usize, usize)>, n: int)
    requires
        ranges_within(a, n),
        ranges_within(b, n),
    ensures
        ranges_within(a + b, n),
{
    assert forall|k: int| 0 <= k < (a + b).len() implies (#[trigger] (a + b)[k]).0 <= (a + b)[k].1
        <= n by {
        if k >= a.len() {
            assert((a + b)[k] == b[k - a.len()]);
        } else {
            assert((a + b)[k] == a[k]);
        }
    }
}

/// Records the ranges of one glyph at code `ch`.
fn record_glyph(
    ch: usize,
    ranges: Vec<(usize, usize)>,
    starts: &mut Vec<Option<usize>>,
    lens: &mut Vec<usize>,
    glyph_lines: &mut Vec<(usize, usize)>,
)
    requires
        ch < FIGLET_SLOTS,
        old(starts)@.len() == FIGLET_SLOTS,
        old(lens)@.len() == FIGLET_SLOTS,
    ensures
        final(starts)@ == old(starts)@.update(ch as int, Some(old(glyph_lines)@.len() as usize)),
        final(lens)@ == old(lens)@.update(ch as int, ranges@.len() as usize),
        final(glyph_lines)@ == old(glyph_lines)@ + ranges@,
{
    let start = glyph_lines.len();
    let n = ranges.len();
    let mut v = ranges;
    glyph_lines.append(&mut v);
    starts.set(ch, Some(start));
    lens.set(ch, n);
}


/// Reads the glyph table from line `first` on: codes 32 to 126 until one fails,
/// then one more glyph stored at 127; records each glyph's line ranges and the
/// average of the glyphs' widest line in bytes.
fn read_glyph_table(b: &Vec<u8>, lines: &Vec<(usize, usize)>, height: usize, first: usize) -> (r:
    Result<(Vec<Option<usize>>, Vec<usize>, Vec<(usize, usize)>, Option<usize>), FontError>)
    requires
        ranges_within(lines@, b@.len() as int),
        first <= lines@.len(),
    ensures
        r is Err <==> required_stop(b@, lines@, height as int, first as int, 32) == Some(
            FontError::FigletMissingMarker,
        ),
        r matches Err(e) ==> e == FontError::FigletMissingMarker,
        r matches Ok(t) ==> ({
            let (req, after) = required_glyphs(b@, lines@, height as int, first as int, 32);
            let extra = read_rows(b@, lines@, after, height as int).0;
            let extra_opt = match extra {
                Ok(rs) => Some(rs),
                Err(_) => None,
            };
            let all = match extra {
                Ok(rs) => req.push(rs),
                Err(_) => req,
            };
            &&& table_holds(t.0@, t.1@, t.2@, req, extra_opt)
            &&& ranges_within(t.2@, b@.len() as int)
            &&& t.3 == if all.len() == 0 {
                None::<usize>
            } else {
                Some((widths_sum(all) / (all.len() as int)) as usize)
            }
        }),
{
    let ghost bytes = b@;
    let mut line_idx: usize = first;
    let ghost first_idx = first as int;
    let mut starts: Vec<Option<usize>> = Vec::new();
    let mut lens: Vec<usize> = Vec::new();
    let mut i: usize = 0;
    while i < FIGLET_SLOTS
        invariant
            i <= FIGLET_SLOTS,
            starts@.len() == i,
            lens@.len() == i,
            forall|j: int| 0 <= j < i ==> #[trigger] starts@[j] is None,
        decreases FIGLET_SLOTS - i,
    {
        starts.push(None);
        lens.push(0);
        i = i + 1;
    }
    let mut glyph_lines: Vec<(usize, usize)> = Vec::new();
    let mut sum_width: u128 = 0;
    let mut count: usize = 0;
    let blen = b.len();
    let ghost tbl: Seq<Seq<(usize, usize)>> = Seq::empty();
    let ghost stop: Option<FontError> = None;
    let mut missing = false;
    let mut ch: usize = 32;
    assert(table_holds(starts@, lens@, glyph_lines@, tbl, None));
    while ch <= 126
        invariant_except_break
            32 <= ch <= 127,
            tbl.len() == ch - 32,
            required_glyphs(bytes, lines@, height as int, first_idx, 32) == (
                tbl + required_glyphs(bytes, lines@, height as int, line_idx as int, ch as int).0,
                required_glyphs(bytes, lines@, height as int, line_idx as int, ch as int).1,
            ),
            required_stop(bytes, lines@, height as int, first_idx, 32) == required_stop(
                bytes,
                lines@,
                height as int,
                line_idx as int,
                ch as int,
            ),
            stop is None,
            !missing,
        invariant
            b@ == bytes,
            blen == bytes.len(),
            ranges_within(lines@, bytes.len() as int),
            line_idx <= lines@.len(),
            ranges_within(glyph_lines@, bytes.len() as int),
            table_holds(starts@, lens@, glyph_lines@, tbl, None),
            count == tbl.len(),
            sum_width as int == widths_sum(tbl),
            sum_width <= count * bytes.len(),
        ensures
            required_glyphs(bytes, lines@, height as int, first_idx, 32) == (
                tbl,
                line_idx as int,
            ),
            required_stop(bytes, lines@, height as int, first_idx, 32) == stop,
            missing == (stop == Some(FontError::FigletMissingMarker)),
        decreases 127 - ch,
    {
        let ghost idx_before = line_idx as int;
        match read_character_ranges(&lines, &mut line_idx, height, b) {
            Ok(ranges) => {
                let w = max_range_width(&ranges);
                let ghost old_tbl = tbl;
                let ghost old_lines = glyph_lines@;
                let ghost old_starts = starts@;
                let ghost old_lens = lens@;
                let ghost rs = ranges@;
                proof {
                    lemma_ranges_width_bound(ranges@, bytes.len() as int);
                    let rest = required_glyphs(bytes, lines@, height as int, line_idx as int, ch + 1);
                    assert(tbl + (seq![rs] + rest.0) =~= tbl.push(rs) + rest.0);
                    assert(sum_width + w <= (count + 1) * bytes.len()) by (nonlinear_arith)
                        requires
                            sum_width <= count * bytes.len(),
                            w <= bytes.len(),
                    ;
                    assert((count + 1) * bytes.len() <= 96 * usize::MAX) by (nonlinear_arith)
                        requires
                            count <= 95,
                            bytes.len() <= usize::MAX,
                    ;
                }
                record_glyph(ch, ranges, &mut starts, &mut lens, &mut glyph_lines);
                let _n = glyph_lines.len();
                proof {
                    lemma_table_record(
                        old_starts,
                        old_lens,
                        old_lines,
                        old_tbl,
                        ch as int,
                        rs,
                        starts@,
                        lens@,
                        glyph_lines@,
                    );
                    lemma_within_append(old_lines, rs, bytes.len() as int);
                    tbl = tbl.push(rs);
                    assert(tbl.drop_last() =~= old_tbl);
                }
                sum_width = sum_width + w as u128;
                count = count + 1;
                ch = ch + 1;
            },
            Err(e) => {
                assert(tbl + Seq::<Seq<(usize, usize)>>::empty() =~= tbl);
                proof {
                    stop = Some(e);
                }
                missing = match e {
                    FontError::FigletMissingMarker => true,
                    _ => false,
                };
                break;
            },
        }
    }
    if missing {
        return Err(FontError::FigletMissingMarker);
    }
    let ghost req = tbl;
    let ghost idx_after_req = line_idx as int;
    let extra = read_character_ranges(&lines, &mut line_idx, height, b);
    let ghost extra_rs: Option<Seq<(usize, usize)>> = match &extra {
        Ok(v) => Some(v@),
        Err(_) => None,
    };
    match extra {
        Ok(ranges) => {
            let w = max_range_width(&ranges);
            let ghost old_lines = glyph_lines@;
            let ghost old_starts = starts@;
            let ghost old_lens = lens@;
            let ghost rs = ranges@;
            proof {
                lemma_ranges_width_bound(ranges@, bytes.len() as int);
                assert(sum_width + w <= (count + 1) * bytes.len()) by (nonlinear_arith)
                    requires
                        sum_width <= count * bytes.len(),
                        w <= bytes.len(),
                ;
                assert((count + 1) * bytes.len() <= 96 * usize::MAX) by (nonlinear_arith)
                    requires
                        count <= 95,
                        bytes.len() <= usize::MAX,
                ;
            }
            record_glyph(127, ranges, &mut starts, &mut lens, &mut glyph_lines);
            let _n = glyph_lines.len();
            proof {
                lemma_table_extra(
                    old_starts,
                    old_lens,
                    old_lines,
                    tbl,
                    rs,
                    starts@,
                    lens@,
                    glyph_lines@,
                );
                lemma_within_append(old_lines, rs, bytes.len() as int);
                assert(tbl.push(rs).drop_last() =~= tbl);
            }
            sum_width = sum_width + w as u128;
            count = count + 1;
        },
        Err(_) => {},
    }
    let ghost all = match extra_rs {
        Some(rs) => req.push(rs),
        None => req,
    };
    assert(count == all.len());
    assert(sum_width as int == widths_sum(all));
    let avg_width = if count == 0 {
        None
    } else {
        proof {
            assert(sum_width / (count as u128) <= bytes.len()) by (nonlinear_arith)
                requires
                    sum_width <= count * bytes.len(),
                    count > 0,
            ;
        }
        Some((sum_width / (count as u128)) as usize)
    };
    Ok((starts, lens, glyph_lines, avg_width))
}

impl FigletFont {
    /// Parses a FIGlet file held in a shared buffer; glyph lines are recorded as
    /// ranges and decoded on demand.
    pub fn parse_bytes(bytes: Arc<Vec<u8>>) -> (r: Result<FigletFont, FontError>)
        ensures
            parse_outcome(bytes@, r),
    {
        let b: &Vec<u8> = &*bytes;
        match check_utf8(b.as_slice()) {
            Err(n) => {
                return Err(FontError::Utf8(n));
            },
            Ok(()) => {},
        }
        let lines = compute_line_ranges(b);
        if lines.len() == 0 {
            return Err(FontError::FigletMissingHeader);
        }
        let (ha, he) = lines[0];
        if he - ha < 5 || b[ha] != 102 || b[ha + 1] != 108 || b[ha + 2] != 102 || b[ha + 3] != 50
            || b[ha + 4] != 97 {
            proof {
                let hl = bytes@.subrange(ha as int, he as int);
                if hl.len() >= 5 {
                    assert(hl.subrange(0, 5) != flf_signature()) by {
                        if hl.subrange(0, 5) == flf_signature() {
                            assert(hl.subrange(0, 5)[0] == flf_signature()[0]);
                            assert(hl.subrange(0, 5)[1] == flf_signature()[1]);
                            assert(hl.subrange(0, 5)[2] == flf_signature()[2]);
                            assert(hl.subrange(0, 5)[3] == flf_signature()[3]);
                            assert(hl.subrange(0, 5)[4] == flf_signature()[4]);
                        }
                    }
                }
            }
            return Err(FontError::FigletInvalidSignature);
        }
        let header = decode_lossy(&b.as_slice()[ha..he]);
        proof {
            let hl = bytes@.subrange(ha as int, he as int);
            assert(hl.subrange(0, 5) =~= flf_signature());
        }
        let text = str_chars(header.as_str());
        let hard_blank = if text.len() > 5 { text[5] } else { '$' };
        let ws = split_words(&text);
        if ws.len() < 6 {
            return Err(FontError::FigletIncompleteHeader);
        }
        let height = match parse_usize(&ws[1]) {
            Some(h) => h,
            None => {
                return Err(FontError::FigletMissingHeight);
            },
        };
        let comment_count = match parse_usize(&ws[5]) {
            Some(c) => c,
            None => 0,
        };
        let ghost hdr = fig_header(bytes@)->Ok_0;
        assert(hdr == (header@, hard_blank, height, comment_count));
        let mut comments: Vec<String> = Vec::new();
        let mut line_idx: usize = 1;
        let mut k: usize = 0;
        while k < comment_count
            invariant
                b@ == bytes@,
                lines@ == line_ranges(bytes@),
                ranges_within(lines@, bytes@.len() as int),
                1 <= line_idx <= lines@.len(),
                line_idx == 1 + k,
                k <= comment_count,
                comments@.len() == k,
                forall|j: int|
                    0 <= j < k ==> (#[trigger] comments@[j])@ == utf8_lossy(
                        bytes@.subrange(lines@[1 + j].0 as int, lines@[1 + j].1 as int),
                    ),
            ensures
                line_idx == 1 + comments@.len(),
                comments@.len() == (if comment_count < lines@.len() - 1 {
                    comment_count as int
                } else {
                    lines@.len() - 1
                }),
                forall|j: int|
                    0 <= j < comments@.len() ==> (#[trigger] comments@[j])@ == utf8_lossy(
                        bytes@.subrange(lines@[1 + j].0 as int, lines@[1 + j].1 as int),
                    ),
            decreases comment_count - k,
        {
            if line_idx >= lines.len() {
                break;
            }
            let (ca, ce) = lines[line_idx];
            comments.push(decode_lossy(&b.as_slice()[ca..ce]));
            line_idx = line_idx + 1;
            k = k + 1;
        }
        let ghost idx_after_comments = line_idx as int;
        let (starts, lens, glyph_lines, avg_width) = match read_glyph_table(
            b,
            &lines,
            height,
            line_idx,
        ) {
            Ok(t) => t,
            Err(e) => {
                return Err(e);
            },
        };
        let lazy = LazyFigletSource {
            bytes: Arc::clone(&bytes),
            hard_blank,
            glyph_lines,
            glyph_line_start: starts,
            glyph_line_len: lens,
            avg_width,
        };
        let font = FigletFont {
            name: "figlet".to_owned(),
            header,
            comments,
            hard_blank,
            glyphs: FigletGlyphs { overlay: empty_figlet_overlay(), lazy: Some(lazy) },
        };
        proof {
            reveal_strlit("figlet");
            assert(font.name@ =~= seq!['f', 'i', 'g', 'l', 'e', 't']);
            let l = font.glyphs.lazy->0;
            let (req, after) = required_glyphs(bytes@, lines@, height as int, idx_after_comments, 32);
            let extra = read_rows(bytes@, lines@, after, height as int).0;
            let extra_rs = match extra {
                Ok(rs) => Some(rs),
                Err(_) => None,
            };
            assert forall|i: int|
                0 <= i < FIGLET_SLOTS && #[trigger] l.glyph_line_start@[i] is Some implies l.glyph_line_start@[i]->0
                + l.glyph_line_len@[i] <= l.glyph_lines@.len() by {
                if 32 <= i < 32 + req.len() {
                    let k = i - 32;
                    assert(l.glyph_line_start@[32 + k] is Some);
                }
            }
            assert forall|k: int| 0 <= k < req.len() implies font.has(32 + k) && #[trigger] font.glyph_at(32 + k)
                == Some(figlet_glyph(decoded_rows(bytes@, req[k]), hard_blank)) by {
                assert(l.rows(32 + k) =~= decoded_rows(bytes@, req[k]));
            }
            match extra_rs {
                Some(rs) => {
                    assert(l.rows(127) =~= decoded_rows(bytes@, rs));
                },
                None => {},
            }
        }
        Ok(font)
    }
}

/// The text lines and the unfinished line that a glyph's parts give: a line
/// break ends a line, a hard blank is the hard-blank character, a plain
/// character itself, any other part a space.
pub open spec fn split_state(ps: Seq<GlyphPart>, hb: char) -> (Seq<Seq<char>>, Seq<char>)
    decreases ps.len(),
{
    if ps.len() == 0 {
        (Seq::empty(), Seq::empty())
    } else {
        let (ls, cur) = split_state(ps.drop_last(), hb);
        match ps.last() {
            GlyphPart::NewLine => (ls.push(cur), Seq::empty()),
            GlyphPart::HardBlank => (ls, cur.push(hb)),
            GlyphPart::Char(c) => (ls, cur.push(c)),
            _ => (ls, cur.push(' ')),
        }
    }
}

/// The text lines of a glyph; the last line counts when it is not empty or is
/// the only one.
pub open spec fn glyph_text_lines(ps: Seq<GlyphPart>, hb: char) -> Seq<Seq<char>> {
    let (ls, cur) = split_state(ps, hb);
    if cur.len() > 0 || ls.len() == 0 {
        ls.push(cur)
    } else {
        ls
    }
}

/// Lines padded with empty ones up to `h`.
pub open spec fn pad_lines(ls: Seq<Seq<char>>, h: int) -> Seq<Seq<char>> {
    if ls.len() < h {
        ls + Seq::new((h - ls.len()) as nat, |i: int| Seq::<char>::empty())
    } else {
        ls
    }
}

/// Lines written with their markers: `@` after each, `@@` after the last.
pub open spec fn marked_lines(ls: Seq<Seq<char>>, n: int) -> Seq<char>
    decreases n,
{
    if n <= 0 {
        Seq::empty()
    } else {
        marked_lines(ls, n - 1) + ls[n - 1] + if n == ls.len() {
            seq!['@', '@', '\n']
        } else {
            seq!['@', '\n']
        }
    }
}

/// Concatenated lines, each followed by a newline.
pub open spec fn joined_lines(ls: Seq<Seq<char>>, n: int) -> Seq<char>
    decreases n,
{
    if n <= 0 {
        Seq::empty()
    } else {
        joined_lines(ls, n - 1) + ls[n - 1] + seq!['\n']
    }
}

impl FigletFont {
    /// The tallest glyph among codes 32 to `c - 1`, at least 1.
    pub open spec fn max_height_upto(&self, c: int) -> int
        decreases c,
    {
        if c <= 32 {
            1
        } else {
            let m = self.max_height_upto(c - 1);
            match self.glyph_at(c - 1) {
                Some(g) => if g.1 > m {
                    g.1 as int
                } else {
                    m
                },
                None => m,
            }
        }
    }

    /// The text of the glyph of code `c`, padded to `h` lines.
    pub open spec fn glyph_text(&self, c: int, h: int) -> Seq<char> {
        let ls = match self.glyph_at(c) {
            Some(g) => glyph_text_lines(g.2, self.hard_blank),
            None => Seq::empty(),
        };
        let p = pad_lines(ls, h);
        marked_lines(p, p.len() as int)
    }

    /// The text of the glyphs of codes 32 to `c - 1`.
    pub open spec fn glyphs_text_upto(&self, c: int, h: int) -> Seq<char>
        decreases c,
    {
        if c <= 32 {
            Seq::empty()
        } else {
            self.glyphs_text_upto(c - 1, h) + self.glyph_text(c - 1, h)
        }
    }

    /// The header line that the writer emits.
    pub open spec fn header_text(&self, h: int) -> Seq<char> {
        seq!['f', 'l', 'f', '2', 'a', self.hard_blank, ' '] + decimal(h as nat) + seq![' ']
            + decimal(h as nat) + seq![' ', '8', '0', ' ', '-', '1', ' '] + decimal(
            self.comments@.len(),
        ) + seq!['\n']
    }

    /// The comment lines.
    pub open spec fn comments_text(&self) -> Seq<char> {
        let cs = Seq::new(self.comments@.len(), |k: int| self.comments@[k]@);
        joined_lines(cs, cs.len() as int)
    }

    /// The whole FIGlet text of this font.
    pub open spec fn figlet_text(&self) -> Seq<char> {
        let h = self.max_height_upto(128);
        self.header_text(h) + self.comments_text() + self.glyphs_text_upto(127, h) + (
        if self.has(127) {
            self.glyph_text(127, h)
        } else {
            Seq::empty()
        })
    }
}

/// Appends characters.
fn append_chars(src: &Vec<char>, out: &mut Vec<char>)
    ensures
        final(out)@ == old(out)@ + src@,
{
    let mut i: usize = 0;
    while i < src.len()
        invariant
            i <= src@.len(),
            out@ == old(out)@ + src@.subrange(0, i as int),
        decreases src.len() - i,
    {
        out.push(src[i]);
        i = i + 1;
        assert(out@ =~= old(out)@ + src@.subrange(0, i as int));
    }
    assert(src@.subrange(0, i as int) =~= src@);
}

/// The text lines of a glyph's parts.
fn glyph_lines_exec(parts: &Vec<GlyphPart>, hb: char) -> (r: Vec<Vec<char>>)
    ensures
        r@.len() == glyph_text_lines(parts@, hb).len(),
        forall|k: int| 0 <= k < r@.len() ==> (#[trigger] r@[k])@ == glyph_text_lines(parts@, hb)[k],
{
    let mut lines: Vec<Vec<char>> = Vec::new();
    let mut cur: Vec<char> = Vec::new();
    let mut i: usize = 0;
    while i < parts.len()
        invariant
            i <= parts@.len(),
            lines@.len() == split_state(parts@.subrange(0, i as int), hb).0.len(),
            forall|k: int|
                0 <= k < lines@.len() ==> (#[trigger] lines@[k])@ == split_state(
                    parts@.subrange(0, i as int),
                    hb,
                ).0[k],
            cur@ == split_state(parts@.subrange(0, i as int), hb).1,
        decreases parts.len() - i,
    {
        assert(parts@.subrange(0, i + 1).drop_last() =~= parts@.subrange(0, i as int));
        match parts[i] {
            GlyphPart::NewLine => {
                lines.push(cur);
                cur = Vec::new();
                assert(cur@ =~= Seq::<char>::empty());
            },
            GlyphPart::HardBlank => cur.push(hb),
            GlyphPart::Char(c) => cur.push(c),
            _ => cur.push(' '),
        }
        i = i + 1;
    }
    assert(parts@.subrange(0, i as int) =~= parts@);
    if cur.len() > 0 || lines.len() == 0 {
        lines.push(cur);
    }
    lines
}

/// Appends lines with their markers.
fn append_marked(lines: &Vec<Vec<char>>, out: &mut Vec<char>)
    ensures
        final(out)@ == old(out)@ + marked_lines(
            Seq::new(lines@.len(), |k: int| lines@[k]@),
            lines@.len() as int,
        ),
{
    let ghost ls = Seq::new(lines@.len(), |k: int| lines@[k]@);
    let mut i: usize = 0;
    while i < lines.len()
        invariant
            ls == Seq::new(lines@.len(), |k: int| lines@[k]@),
            i <= lines@.len(),
            out@ == old(out)@ + marked_lines(ls, i as int),
        decreases lines.len() - i,
    {
        append_chars(&lines[i], out);
        out.push('@');
        if i + 1 == lines.len() {
            out.push('@');
        }
        out.push('\n');
        i = i + 1;
        assert(ls[i - 1] == lines@[i - 1]@);
        assert(out@ =~= old(out)@ + marked_lines(ls, i as int));
    }
}

impl FigletFont {
    /// The tallest glyph among codes 32 to 127, at least 1.
    fn compute_max_height(&self) -> (r: usize)
        requires
            self.wf(),
        ensures
            r as int == self.max_height_upto(128),
    {
        let mut max_h: usize = 1;
        let mut c: usize = 32;
        while c <= 127
            invariant
                self.wf(),
                32 <= c <= 128,
                max_h as int == self.max_height_upto(c as int),
            decreases 128 - c,
        {
            match self.glyph_in_slot(c) {
                Some(g) => {
                    if g.height > max_h {
                        max_h = g.height;
                    }
                },
                None => {},
            }
            c = c + 1;
        }
        max_h
    }

    /// Appends the text of the glyph of code `c`, padded to `h` lines.
    fn write_glyph_lines(&self, out: &mut Vec<char>, c: usize, h: usize)
        requires
            self.wf(),
            c < FIGLET_SLOTS,
        ensures
            final(out)@ == old(out)@ + self.glyph_text(c as int, h as int),
    {
        let mut lines: Vec<Vec<char>> = match self.glyph_in_slot(c) {
            Some(g) => glyph_lines_exec(&g.parts, self.hard_blank),
            None => Vec::new(),
        };
        let ghost ls = Seq::new(lines@.len(), |k: int| lines@[k]@);
        proof {
            match self.glyph_at(c as int) {
                Some(g) => {
                    assert(ls =~= glyph_text_lines(g.2, self.hard_blank));
                },
                None => {
                    assert(ls =~= Seq::<Seq<char>>::empty());
                },
            }
        }
        let ghost n0 = lines@.len();
        while lines.len() < h
            invariant
                n0 <= lines@.len(),
                lines@.len() <= n0 || lines@.len() <= h,
                forall|k: int| 0 <= k < n0 ==> (#[trigger] lines@[k])@ == ls[k],
                forall|k: int| n0 <= k < lines@.len() ==> (#[trigger] lines@[k])@ == Seq::<char>::empty(),
                ls.len() == n0,
            decreases h - lines@.len(),
        {
            lines.push(Vec::new());
        }
        assert(Seq::new(lines@.len(), |k: int| lines@[k]@) =~= pad_lines(ls, h as int));
        append_marked(&lines, out);
    }

    /// Appends the header line.
    fn write_header(&self, h: usize, out: &mut Vec<char>)
        ensures
            final(out)@ == old(out)@ + self.header_text(h as int),
    {
        out.push('f');
        out.push('l');
        out.push('f');
        out.push('2');
        out.push('a');
        out.push(self.hard_blank);
        out.push(' ');
        push_decimal(h, out);
        out.push(' ');
        push_decimal(h, out);
        out.push(' ');
        out.push('8');
        out.push('0');
        out.push(' ');
        out.push('-');
        out.push('1');
        out.push(' ');
        push_decimal(self.comments.len(), out);
        out.push('\n');
        assert(final(out)@ =~= old(out)@ + self.header_text(h as int));
    }

    /// Appends the comment lines.
    fn write_comments(&self, out: &mut Vec<char>)
        ensures
            final(out)@ == old(out)@ + self.comments_text(),
    {
        let ghost cs = Seq::new(self.comments@.len(), |k: int| self.comments@[k]@);
        let mut k: usize = 0;
        while k < self.comments.len()
            invariant
                cs == Seq::new(self.comments@.len(), |j: int| self.comments@[j]@),
                k <= self.comments@.len(),
                out@ == old(out)@ + joined_lines(cs, k as int),
            decreases self.comments.len() - k,
        {
            let text = str_chars(self.comments[k].as_str());
            append_chars(&text, out);
            out.push('\n');
            k = k + 1;
            assert(out@ =~= old(out)@ + joined_lines(cs, k as int));
        }
    }

    /// The font in FIGlet text form: a header with the hard blank, the tallest
    /// glyph's height and the comment count; the comments; each glyph of codes 32
    /// to 126 (and 127 where the font has it), padded to that height.
    pub fn to_bytes(&self) -> (r: Result<Vec<u8>, FontError>)
        requires
            self.wf(),
        ensures
            r matches Ok(v) && v@ == encode_utf8(self.figlet_text()),
    {
        let h = self.compute_max_height();
        let mut out: Vec<char> = Vec::new();
        self.write_header(h, &mut out);
        self.write_comments(&mut out);
        let ghost mid = out@;
        let mut c: usize = 32;
        while c <= 126
            invariant
                self.wf(),
                32 <= c <= 127,
                out@ == mid + self.glyphs_text_upto(c as int, h as int),
            decreases 127 - c,
        {
            self.write_glyph_lines(&mut out, c, h);
            c = c + 1;
            assert(out@ =~= mid + self.glyphs_text_upto(c as int, h as int));
        }
        let ghost before_last = out@;
        if self.has_char(127 as char) {
            self.write_glyph_lines(&mut out, 127, h);
        }
        assert(out@ =~= self.figlet_text());
        let text = string_from_chars(&out);
        let bytes = text.as_str().as_bytes();
        Ok(vstd::slice::slice_to_vec(bytes))
    }
}

/// Whether a buffer starts with the gzip signature.
pub open spec fn is_gzip(b: Seq<u8>) -> bool {
    b.len() >= 2 && b[0] == 0x1F && b[1] == 0x8B
}

/// Whether a buffer starts with the ZIP signature `PK\x03\x04`.
pub open spec fn is_zip(b: Seq<u8>) -> bool {
    b.len() >= 4 && b[0] == 0x50 && b[1] == 0x4B && b[2] == 3 && b[3] == 4
}

/// Whether a name ends with `.flf`.
pub open spec fn has_flf_suffix(n: Seq<u8>) -> bool {
    n.len() >= 4 && n[n.len() - 4] == 46 && n[n.len() - 3] == 102 && n[n.len() - 2] == 108
        && n[n.len() - 1] == 102
}

/// `r` is what loading entries `i..n` of archive `b` gives: a name error reports
/// it, the first entry whose name ends with `.flf` is read and parsed (a read
/// error reports it), and running out of entries gives `ZipNoFlf`.
pub open spec fn zip_pick(b: Seq<u8>, n: int, i: int, r: Result<FigletFont, FontError>) -> bool
    decreases n - i,
{
    if i >= n || i < 0 {
        r == Err::<FigletFont, FontError>(FontError::ZipNoFlf)
    } else {
        match zip_name_of(b, i as usize) {
            Err(m) => r is Err && r->Err_0 is Zip && r->Err_0->Zip_0@ == m,
            Ok(nm) => if has_flf_suffix(encode_utf8(nm)) {
                match zip_bytes_of(b, i as usize) {
                    Err(m) => r is Err && r->Err_0 is Zip && r->Err_0->Zip_0@ == m,
                    Ok(c) => parse_outcome(c, r),
                }
            } else {
                zip_pick(b, n, i + 1, r)
            },
        }
    }
}

/// `r` is what loading a ZIP archive gives: an unreadable archive reports its
/// error, else the entries are searched for the first `.flf` one.
pub open spec fn zip_outcome(b: Seq<u8>, r: Result<FigletFont, FontError>) -> bool {
    match zip_count_of(b) {
        Err(m) => r is Err && r->Err_0 is Zip && r->Err_0->Zip_0@ == m,
        Ok(n) => zip_pick(b, n as int, 0, r),
    }
}

/// Whether a name ends with `.flf`.
fn ends_with_flf(name: &String) -> (r: bool)
    ensures
        r == has_flf_suffix(encode_utf8(name@)),
{
    let b = name.as_str().as_bytes();
    let n = b.len();
    n >= 4 && b[n - 4] == 46 && b[n - 3] == 102 && b[n - 2] == 108 && b[n - 1] == 102
}

impl FigletFont {
    /// Loads a FIGlet font, copying the buffer once.
    pub fn load(bytes: &[u8]) -> (r: Result<FigletFont, FontError>)
        ensures
            is_gzip(bytes@) ==> r == Err::<FigletFont, FontError>(FontError::FigletGzipNotSupported),
            !is_gzip(bytes@) && !is_zip(bytes@) ==> parse_outcome(bytes@, r),
            !is_gzip(bytes@) && is_zip(bytes@) ==> zip_outcome(bytes@, r),
            r matches Ok(f) ==> f.wf(),
    {
        let v = vstd::slice::slice_to_vec(bytes);
        FigletFont::load_arc(Arc::new(v))
    }

    /// Loads a FIGlet font from a shared buffer: a gzip stream is refused, a ZIP
    /// archive yields its first `.flf` entry, anything else is parsed as it is.
    pub fn load_arc(bytes: Arc<Vec<u8>>) -> (r: Result<FigletFont, FontError>)
        ensures
            is_gzip(bytes@) ==> r == Err::<FigletFont, FontError>(FontError::FigletGzipNotSupported),
            !is_gzip(bytes@) && !is_zip(bytes@) ==> parse_outcome(bytes@, r),
            !is_gzip(bytes@) && is_zip(bytes@) ==> zip_outcome(bytes@, r),
            r matches Ok(f) ==> f.wf(),
    {
        let b: &Vec<u8> = &*bytes;
        if b.len() >= 2 && b[0] == 0x1F && b[1] == 0x8B {
            return Err(FontError::FigletGzipNotSupported);
        }
        if b.len() >= 4 && b[0] == 0x50 && b[1] == 0x4B && b[2] == 3 && b[3] == 4 {
            let data = b.as_slice();
            let n = match zip_entry_count(data) {
                Ok(n) => n,
                Err(msg) => {
                    return Err(FontError::Zip(msg));
                },
            };
            let mut i: usize = 0;
            while i < n
                invariant
                    is_zip(bytes@),
                    !is_gzip(bytes@),
                    data@ == bytes@,
                    zip_count_of(bytes@) == Ok::<usize, Seq<char>>(n),
                    forall|r: Result<FigletFont, FontError>| #[trigger]
                        zip_pick(bytes@, n as int, i as int, r) ==> zip_pick(bytes@, n as int, 0, r),
                decreases n - i,
            {
                let name = match zip_entry_name(data, i) {
                    Ok(name) => name,
                    Err(msg) => {
                        let r = Err(FontError::Zip(msg));
                        assert(zip_pick(bytes@, n as int, i as int, r));
                        return r;
                    },
                };
                if ends_with_flf(&name) {
                    let content = match zip_entry_bytes(data, i) {
                        Ok(c) => c,
                        Err(msg) => {
                            let r = Err(FontError::Zip(msg));
                            assert(zip_pick(bytes@, n as int, i as int, r));
                            return r;
                        },
                    };
                    let r = FigletFont::parse_bytes(Arc::new(content));
                    assert(zip_pick(bytes@, n as int, i as int, r));
                    return r;
                }
                assert forall|r: Result<FigletFont, FontError>| #[trigger]
                    zip_pick(bytes@, n as int, i + 1, r) implies zip_pick(bytes@, n as int, 0, r) by {
                    assert(zip_pick(bytes@, n as int, i as int, r));
                }
                i = i + 1;
            }
            assert(zip_pick(bytes@, n as int, i as int, Err::<FigletFont, FontError>(FontError::ZipNoFlf)));
            return Err(FontError::ZipNoFlf);
        }
        FigletFont::parse_bytes(bytes)
    }
}

impl FigletFont {
    /// The defined glyphs among the first `n` codes, with their characters, in order.
    pub open spec fn present_upto(&self, n: int) -> Seq<(char, GlyphModel)>
        decreases n,
    {
        if n <= 0 {
            Seq::empty()
        } else {
            self.present_upto(n - 1) + match self.glyph_at(n - 1) {
                Some(g) => seq![((n - 1) as char, g)],
                None => Seq::empty(),
            }
        }
    }

    /// Every defined glyph with its character, in code order.
    pub fn iter_glyphs(&self) -> (r: Vec<(char, Glyph)>)
        requires
            self.wf(),
        ensures
            r@.len() == self.present_upto(FIGLET_SLOTS as int).len(),
            forall|k: int|
                0 <= k < r@.len() ==> ((#[trigger] r@[k]).0, r@[k].1@) == self.present_upto(
                    FIGLET_SLOTS as int,
                )[k],
    {
        let mut r: Vec<(char, Glyph)> = Vec::new();
        let mut i: usize = 0;
        while i < FIGLET_SLOTS
            invariant
                self.wf(),
                i <= FIGLET_SLOTS,
                r@.len() == self.present_upto(i as int).len(),
                forall|k: int|
                    0 <= k < r@.len() ==> ((#[trigger] r@[k]).0, r@[k].1@) == self.present_upto(
                        i as int,
                    )[k],
            decreases FIGLET_SLOTS - i,
        {
            match self.glyph_in_slot(i) {
                Some(g) => {
                    let ch = (i as u8) as char;
                    assert(ch == (i as int) as char);
                    r.push((ch, g));
                },
                None => {},
            }
            i = i + 1;
        }
        r
    }
}

} // verus!
