//! Conversion of FIGlet fonts into TDF fonts.
use vstd::prelude::*;

use crate::error::FontError;
use crate::figlet::FigletFont;
use crate::glyph::{Glyph, GlyphModel, GlyphPart};
use crate::tdf::{
    slot_char, tdf_char, tdf_slot, TdfFont, TdfFontType, CHAR_TABLE_SIZE, MAX_TDF_GLYPH_HEIGHT,
    MAX_TDF_GLYPH_WIDTH,
};

verus! {

/// Whether a glyph fits the TDF size limits.
pub open spec fn fits_tdf(g: GlyphModel) -> bool {
    g.0 <= MAX_TDF_GLYPH_WIDTH && g.1 <= MAX_TDF_GLYPH_HEIGHT
}

/// The FIGlet glyph of TDF slot `i` (character `'!' + i`).
pub open spec fn source_of(fig: &FigletFont, i: int) -> Option<GlyphModel> {
    fig.glyph_of(slot_char(i))
}

/// Whether slot `i` has a FIGlet glyph that fits the TDF size limits.
pub open spec fn fits_slot(fig: &FigletFont, i: int) -> bool {
    source_of(fig, i) matches Some(g) && fits_tdf(g)
}

/// Whether some glyph of the printable range fits the TDF size limits.
pub open spec fn convertible(fig: &FigletFont) -> bool {
    exists|i: int| 0 <= i < CHAR_TABLE_SIZE && #[trigger] fits_slot(fig, i)
}

/// A part as a TDF font of type `t` holds it: plain characters become colored
/// (light gray on black) in a color font, colored ones plain in other fonts.
pub open spec fn convert_part(p: GlyphPart, t: TdfFontType) -> GlyphPart {
    match p {
        GlyphPart::Char(c) => if t == TdfFontType::Color {
            GlyphPart::AnsiChar { ch: c, fg: 7, bg: 0, blink: false }
        } else {
            GlyphPart::Char(c)
        },
        GlyphPart::AnsiChar { ch, fg, bg, blink } => if t == TdfFontType::Color {
            p
        } else {
            GlyphPart::Char(ch)
        },
        _ => p,
    }
}

/// Widest finished line, width of the current line, and line breaks seen.
pub open spec fn line_state(ps: Seq<GlyphPart>) -> (int, int, int)
    decreases ps.len(),
{
    if ps.len() == 0 {
        (0, 0, 0)
    } else {
        let (w, lw, nl) = line_state(ps.drop_last());
        if ps.last() is NewLine {
            (if lw > w { lw } else { w }, 0, nl + 1)
        } else {
            (w, lw + 1, nl)
        }
    }
}

/// The glyph a FIGlet glyph becomes: parts converted, width and height counted
/// anew from the parts.
pub open spec fn converted_glyph(g: GlyphModel, t: TdfFontType) -> GlyphModel {
    let (w, lw, nl) = line_state(g.2);
    (
        (if lw > w { lw } else { w }) as usize,
        (if nl < usize::MAX { nl + 1 } else { usize::MAX as int }) as usize,
        Seq::new(g.2.len(), |i: int| convert_part(g.2[i], t)),
    )
}

/// Whether the FIGlet font can be converted: some glyph of `'!'..='~'` fits
/// 30 by 12 cells.
pub fn can_convert_figlet_to_tdf(fig: &FigletFont, target_type: TdfFontType) -> (r: bool)
    requires
        fig.wf(),
    ensures
        r == convertible(fig),
{
    let mut i: usize = 0;
    while i < CHAR_TABLE_SIZE
        invariant
            fig.wf(),
            i <= CHAR_TABLE_SIZE,
            forall|j: int| 0 <= j < i ==> !#[trigger] fits_slot(fig, j),
        decreases CHAR_TABLE_SIZE - i,
    {
        let ch = tdf_char(i);
        match fig.glyph(ch) {
            Some(g) => {
                if g.width <= MAX_TDF_GLYPH_WIDTH && g.height <= MAX_TDF_GLYPH_HEIGHT {
                    assert(fits_slot(fig, i as int));
                    return true;
                }
            },
            None => {},
        }
        i = i + 1;
    }
    false
}

/// The converted form of a glyph.
fn convert_glyph(g: &Glyph, target_type: TdfFontType) -> (r: Glyph)
    ensures
        r@ == converted_glyph(g@, target_type),
{
    let mut parts: Vec<GlyphPart> = Vec::new();
    let mut width: usize = 0;
    let mut line_width: usize = 0;
    let mut newlines: usize = 0;
    let mut i: usize = 0;
    while i < g.parts.len()
        invariant
            i <= g.parts@.len(),
            parts@ =~= Seq::new(i as nat, |k: int| convert_part(g.parts@[k], target_type)),
            line_state(g.parts@.subrange(0, i as int)) == (
                width as int,
                line_width as int,
                newlines as int,
            ),
            width <= i,
            line_width <= i,
            newlines <= i,
        decreases g.parts.len() - i,
    {
        let p = g.parts[i];
        assert(g.parts@.subrange(0, i + 1).drop_last() =~= g.parts@.subrange(0, i as int));
        let q = match p {
            GlyphPart::Char(c) => {
                if target_type == TdfFontType::Color {
                    GlyphPart::AnsiChar { ch: c, fg: 7, bg: 0, blink: false }
                } else {
                    GlyphPart::Char(c)
                }
            },
            GlyphPart::AnsiChar { ch, fg, bg, blink } => {
                if target_type == TdfFontType::Color {
                    p
                } else {
                    GlyphPart::Char(ch)
                }
            },
            _ => p,
        };
        parts.push(q);
        match p {
            GlyphPart::NewLine => {
                if line_width > width {
                    width = line_width;
                }
                line_width = 0;
                newlines = newlines + 1;
            },
            _ => {
                line_width = line_width + 1;
            },
        }
        i = i + 1;
    }
    assert(g.parts@.subrange(0, i as int) =~= g.parts@);
    if line_width > width {
        width = line_width;
    }
    let height = newlines.saturating_add(1);
    Glyph { width, height, parts }
}

/// The TDF glyph of slot `i` after converting `fig`: its glyph converted, where it
/// fits the size limits.
pub open spec fn converted_slot(fig: &FigletFont, t: TdfFontType, i: int) -> Option<GlyphModel> {
    match source_of(fig, i) {
        Some(g) => if fits_tdf(g) {
            Some(converted_glyph(g, t))
        } else {
            None
        },
        None => None,
    }
}

/// Slot `j` of `t` holds nothing.
spec fn empty_slot(t: &TdfFont, j: int) -> bool {
    !t.has(j) && t.glyph_at(j) is None
}

/// Converts a FIGlet font into a TDF font of a block or color type, keeping only
/// the glyphs of `'!'..='~'` that fit 30 by 12 cells; spacing is 1.
pub fn figlet_to_tdf(fig: &FigletFont, target_type: TdfFontType) -> (r: Result<TdfFont, FontError>)
    requires
        fig.wf(),
    ensures
        target_type == TdfFontType::Outline ==> r == Err::<TdfFont, FontError>(FontError::UnsupportedType),
        target_type != TdfFontType::Outline && !convertible(fig) ==> r == Err::<TdfFont, FontError>(
            FontError::ConversionIncompatible,
        ),
        target_type != TdfFontType::Outline && convertible(fig) ==> r is Ok,
        r matches Ok(t) ==> {
            &&& t.wf()
            &&& t.overlay_only()
            &&& t.name@ == fig.name@
            &&& t.font_type == target_type
            &&& t.spacing == 1
            &&& forall|ch: char| #[trigger] t.has_char_spec(ch) ==> '!' <= ch <= '~'
            &&& forall|i: int|
                0 <= i < CHAR_TABLE_SIZE ==> #[trigger] t.glyph_at(i) == converted_slot(
                    fig,
                    target_type,
                    i,
                ) && t.has(i) == (converted_slot(fig, target_type, i) is Some)
        },
{
    match target_type {
        TdfFontType::Outline => {
            return Err(FontError::UnsupportedType);
        },
        _ => {},
    }
    if !can_convert_figlet_to_tdf(fig, target_type) {
        return Err(FontError::ConversionIncompatible);
    }
    let mut tdf = TdfFont::new(fig.name.as_str(), target_type, 1);
    let mut i: usize = 0;
    while i < CHAR_TABLE_SIZE
        invariant
            fig.wf(),
            tdf.wf(),
            tdf.overlay_only(),
            tdf.name@ == fig.name@,
            tdf.font_type == target_type,
            tdf.spacing == 1,
            i <= CHAR_TABLE_SIZE,
            forall|j: int|
                0 <= j < i ==> #[trigger] tdf.glyph_at(j) == converted_slot(fig, target_type, j)
                    && tdf.has(j) == (converted_slot(fig, target_type, j) is Some),
            forall|j: int| i <= j < CHAR_TABLE_SIZE ==> #[trigger] empty_slot(&tdf, j),
        decreases CHAR_TABLE_SIZE - i,
    {
        let code = tdf_char(i);
        let ghost before = tdf;
        assert(empty_slot(&before, i as int));
        match fig.glyph(code) {
            Some(g) => {
                assert(source_of(fig, i as int) == Some(g@));
                if g.width <= MAX_TDF_GLYPH_WIDTH && g.height <= MAX_TDF_GLYPH_HEIGHT {
                    let c = convert_glyph(&g, target_type);
                    tdf.add_glyph(code, c);
                    assert(tdf.glyph_at(i as int) == converted_slot(fig, target_type, i as int));
                } else {
                    assert(converted_slot(fig, target_type, i as int) is None);
                }
            },
            None => {
                assert(source_of(fig, i as int) is None);
            },
        }
        assert forall|j: int| 0 <= j < CHAR_TABLE_SIZE && j != i implies #[trigger] tdf.has(j)
            == before.has(j) && tdf.glyph_at(j) == before.glyph_at(j) by {
            assert(tdf_slot(code) != Some(j));
        }
        assert(tdf.has(i as int) == (converted_slot(fig, target_type, i as int) is Some));
        assert(tdf.glyph_at(i as int) == converted_slot(fig, target_type, i as int));
        assert forall|j: int| i + 1 <= j < CHAR_TABLE_SIZE implies #[trigger] empty_slot(&tdf, j) by {
            assert(empty_slot(&before, j));
            assert(tdf.has(j) == before.has(j) && tdf.glyph_at(j) == before.glyph_at(j));
        }
        i = i + 1;
    }
    proof {
        assert forall|ch: char| #[trigger] tdf.has_char_spec(ch) implies '!' <= ch <= '~' by {
            law_printable_range(&tdf, ch);
        }
    }
    Ok(tdf)
}

/// A TDF font holds characters of `'!'..='~'` only; in particular a converted font
/// never has the null character or a code outside that range.
pub proof fn law_printable_range(t: &TdfFont, ch: char)
    ensures
        t.has_char_spec(ch) ==> '!' <= ch <= '~',
{
}

} // verus!
