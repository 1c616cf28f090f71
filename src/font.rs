//! One type over both font formats: loading with format detection, glyph
//! lookup with case fallback, rendering and writing back.
use vstd::prelude::*;

use std::sync::Arc;

use crate::error::FontError;
use crate::figlet::{parse_outcome, FigletFont};
use crate::glyph::{apply_ops, render_parts, GlyphModel, RenderOp, RenderOptions};
use crate::tdf::{parse_bundle, tdf_signature, TdfFont};
use crate::text::{
    alphabetic, char_is_alphabetic, char_is_lowercase, char_lower_first, char_upper_first,
    lower_first, lowercase, upper_first,
};
use crate::{Cell, FontTarget};

verus! {

/// A font of either format.
pub enum Font {
    Figlet(FigletFont),
    Tdf(TdfFont),
}

/// Whether a buffer starts with `flf2a`.
pub open spec fn is_flf_text(b: Seq<u8>) -> bool {
    b.len() >= 5 && b[0] == 102 && b[1] == 108 && b[2] == 102 && b[3] == 50 && b[4] == 97
}

/// Whether a buffer starts with the TDF id length and signature.
pub open spec fn is_tdf_bundle(b: Seq<u8>) -> bool {
    b.len() >= 19 && b[0] == 19 && b.subrange(1, 19) == tdf_signature()
}

/// `v` is the fonts that loading `b` gives, and `r` is `v` or the load's error.
pub open spec fn load_outcome(b: Seq<u8>, r: Result<Vec<Font>, FontError>) -> bool {
    if is_flf_text(b) {
        match r {
            Ok(v) => v@.len() == 1 && (v@[0] matches Font::Figlet(f) && parse_outcome(b, Ok(f))),
            Err(e) => parse_outcome(b, Err(e)),
        }
    } else if is_tdf_bundle(b) {
        match (r, parse_bundle(b)) {
            (Ok(v), Ok(recs)) => recs.len() > 0 && v@.len() == recs.len() && forall|i: int|
                0 <= i < v@.len() ==> (#[trigger] v@[i] matches Font::Tdf(t) && t.matches_rec(
                    b,
                    recs[i],
                )),
            (Err(e), Ok(recs)) => recs.len() == 0 && e == FontError::TdfEmptyBundle,
            (Err(e1), Err(e2)) => e1 == e2,
            _ => false,
        }
    } else {
        r == Err::<Vec<Font>, FontError>(FontError::UnrecognizedFormat)
    }
}

/// Tallest glyph among `'!'` to `'!' + n - 1` of a FIGlet font, 0 where there is none.
pub open spec fn figlet_height_upto(f: &FigletFont, n: int) -> int
    decreases n,
{
    if n <= 0 {
        0
    } else {
        let m = figlet_height_upto(f, n - 1);
        match f.glyph_at(32 + n) {
            Some(g) => if g.1 > m {
                g.1 as int
            } else {
                m
            },
            None => m,
        }
    }
}

impl Font {
    /// The inner font's consistency.
    pub open spec fn wf(&self) -> bool {
        match self {
            Font::Figlet(f) => f.wf(),
            Font::Tdf(t) => t.wf(),
        }
    }

    /// Whether the font has character `ch`.
    pub open spec fn has_spec(&self, ch: char) -> bool {
        match self {
            Font::Figlet(f) => f.has_char_spec(ch),
            Font::Tdf(t) => t.has_char_spec(ch),
        }
    }

    /// The glyph of character `ch`.
    pub open spec fn glyph_spec(&self, ch: char) -> Option<GlyphModel> {
        match self {
            Font::Figlet(f) => f.glyph_of(ch),
            Font::Tdf(t) => t.glyph_of(ch),
        }
    }

    /// The spacing hint.
    pub open spec fn spacing_of(&self) -> Option<usize> {
        match self {
            Font::Figlet(f) => f.spacing_spec(),
            Font::Tdf(t) => Some(if t.spacing < 1 { 1usize } else { t.spacing as usize }),
        }
    }

    /// The character actually drawn for `ch`: `ch` where the font has it; else,
    /// for a lowercase or an alphabetic character, the first character of its
    /// other case (uppercase for a lowercase one) where the font has that; else
    /// `ch`. A lowercase character is always alphabetic in Unicode, so testing
    /// lowercase first decides the same cases.
    pub open spec fn resolve(&self, ch: char) -> char {
        if self.has_spec(ch) {
            ch
        } else if lowercase(ch) || alphabetic(ch) {
            let other = if lowercase(ch) {
                upper_first(ch)
            } else {
                lower_first(ch)
            };
            match other {
                Some(o) => if self.has_spec(o) {
                    o
                } else {
                    ch
                },
                None => ch,
            }
        } else {
            ch
        }
    }

    /// What rendering `ch` asks of a sink: for a space the font lacks, as many
    /// plain spaces as the spacing hint (1 without one); otherwise the steps of the
    /// resolved character's glyph, or `UnknownChar` where there is none.
    pub open spec fn render_spec(&self, ch: char, opts: RenderOptions) -> Result<
        Seq<RenderOp>,
        FontError,
    > {
        if ch == ' ' && !self.has_spec(' ') {
            let w = match self.spacing_of() {
                Some(w) => w,
                None => 1,
            };
            Ok(Seq::new(w as nat, |i: int| RenderOp::Draw(crate::glyph::plain(' '))))
        } else {
            match self.glyph_spec(self.resolve(ch)) {
                Some(g) => Ok(render_parts(g.2, opts)),
                None => Err(FontError::UnknownChar(ch)),
            }
        }
    }

    /// The font's name.
    pub fn name(&self) -> (r: &str)
        ensures
            r@ == match self {
                Font::Figlet(f) => f.name@,
                Font::Tdf(t) => t.name@,
            },
    {
        match self {
            Font::Figlet(f) => f.name.as_str(),
            Font::Tdf(f) => f.name.as_str(),
        }
    }

    /// Whether the font has character `ch`.
    pub fn has_char(&self, ch: char) -> (r: bool)
        requires
            self.wf(),
        ensures
            r == self.has_spec(ch),
            !r ==> self.glyph_spec(ch) is None,
    {
        match self {
            Font::Figlet(f) => f.has_char(ch),
            Font::Tdf(f) => f.has_char(ch),
        }
    }

    /// The spacing hint.
    pub fn spacing(&self) -> (r: Option<usize>)
        requires
            self.wf(),
        ensures
            r == self.spacing_of(),
    {
        match self {
            Font::Figlet(f) => f.spacing(),
            Font::Tdf(f) => f.spacing(),
        }
    }

    /// The width and height of the glyph of `ch`.
    pub fn glyph_size(&self, ch: char) -> (r: Option<(usize, usize)>)
        requires
            self.wf(),
        ensures
            r matches Some(wh) ==> self.glyph_spec(ch) matches Some(g) && wh == (g.0, g.1),
            r is None ==> self.glyph_spec(ch) is None,
    {
        match self {
            Font::Figlet(f) => match f.glyph(ch) {
                Some(g) => Some((g.width, g.height)),
                None => None,
            },
            Font::Tdf(f) => f.glyph_size(ch),
        }
    }

    /// The tallest glyph of `'!'..='~'`, at least 1.
    pub fn max_height(&self) -> (r: usize)
        requires
            self.wf(),
        ensures
            r as int == match self {
                Font::Figlet(f) => if figlet_height_upto(f, 94) < 1 {
                    1
                } else {
                    figlet_height_upto(f, 94)
                },
                Font::Tdf(t) => if t.max_height_upto(94) < 1 {
                    1
                } else {
                    t.max_height_upto(94)
                },
            },
    {
        match self {
            Font::Figlet(f) => {
                let mut max_h: usize = 0;
                let mut n: usize = 0;
                while n < 94
                    invariant
                        f.wf(),
                        n <= 94,
                        max_h as int == figlet_height_upto(f, n as int),
                    decreases 94 - n,
                {
                    let ch = ((33 + n) as u8) as char;
                    assert(FigletFont::slot_of(ch) == Some(33 + n as int));
                    match f.glyph(ch) {
                        Some(g) => {
                            if g.height > max_h {
                                max_h = g.height;
                            }
                        },
                        None => {},
                    }
                    n = n + 1;
                }
                if max_h < 1 {
                    1
                } else {
                    max_h
                }
            },
            Font::Tdf(f) => f.max_height(),
        }
    }

    /// The character drawn for `ch`, after case fallback.
    fn resolve_char(&self, ch: char) -> (r: char)
        requires
            self.wf(),
        ensures
            r == self.resolve(ch),
    {
        if self.has_char(ch) {
            return ch;
        }
        let lower = char_is_lowercase(ch);
        if !lower && !char_is_alphabetic(ch) {
            return ch;
        }
        let other = if lower {
            char_upper_first(ch)
        } else {
            char_lower_first(ch)
        };
        match other {
            Some(o) => {
                if self.has_char(o) {
                    o
                } else {
                    ch
                }
            },
            None => ch,
        }
    }

    /// The steps that rendering `ch` asks of a sink.
    pub fn render_ops(&self, ch: char, options: &RenderOptions) -> (r: Result<Vec<RenderOp>, FontError>)
        requires
            self.wf(),
        ensures
            match (r, self.render_spec(ch, *options)) {
                (Ok(v), Ok(s)) => v@ == s,
                (Err(e1), Err(e2)) => e1 == e2,
                _ => false,
            },
    {
        if ch == ' ' && !self.has_char(' ') {
            let w = match self.spacing() {
                Some(w) => w,
                None => 1,
            };
            let mut ops: Vec<RenderOp> = Vec::new();
            let mut i: usize = 0;
            while i < w
                invariant
                    i <= w,
                    ops@ =~= Seq::new(i as nat, |k: int| RenderOp::Draw(crate::glyph::plain(' '))),
                decreases w - i,
            {
                ops.push(RenderOp::Draw(Cell::new(' ', None, None, false)));
                i = i + 1;
            }
            return Ok(ops);
        }
        let c = self.resolve_char(ch);
        let glyph = match self {
            Font::Figlet(f) => f.glyph(c),
            Font::Tdf(f) => f.glyph(c),
        };
        match glyph {
            Some(g) => Ok(g.render_ops(options)),
            None => Err(FontError::UnknownChar(ch)),
        }
    }

    /// Renders `ch` onto a sink: a missing space is drawn as blank cells, a
    /// missing letter falls back to its other case.
    pub fn render_glyph<T: FontTarget>(&self, target: &mut T, ch: char, options: &RenderOptions) -> (r:
        Result<(), FontError>)
        requires
            self.wf(),
        ensures
            self.render_spec(ch, *options) matches Err(e) ==> r == Err::<(), FontError>(e),
            r is Err ==> r == Err::<(), FontError>(FontError::InvalidGlyph) || self.render_spec(
                ch,
                *options,
            ) is Err,
            self.render_spec(ch, *options) matches Ok(s) && s.len() == 0 ==> r is Ok,
    {
        match self.render_ops(ch, options) {
            Ok(ops) => apply_ops(&ops, target),
            Err(e) => Err(e),
        }
    }

    /// Loads every font of a buffer, telling the format by its signature.
    pub fn load(bytes: &[u8]) -> (r: Result<Vec<Font>, FontError>)
        ensures
            load_outcome(bytes@, r),
    {
        let v = vstd::slice::slice_to_vec(bytes);
        Font::load_arc(Arc::new(v))
    }

    /// Loads every font of an owned buffer without copying it.
    pub fn load_owned(bytes: Vec<u8>) -> (r: Result<Vec<Font>, FontError>)
        ensures
            load_outcome(bytes@, r),
    {
        Font::load_arc(Arc::new(bytes))
    }

    /// Loads every font of a shared buffer; TDF fonts decode from it lazily.
    pub fn load_arc(bytes: Arc<Vec<u8>>) -> (r: Result<Vec<Font>, FontError>)
        ensures
            load_outcome(bytes@, r),
    {
        let b: &Vec<u8> = &*bytes;
        if b.len() >= 5 && b[0] == 102 && b[1] == 108 && b[2] == 102 && b[3] == 50 && b[4] == 97 {
            let fig = FigletFont::load_arc(bytes);
            return match fig {
                Ok(f) => {
                    let mut v: Vec<Font> = Vec::new();
                    v.push(Font::Figlet(f));
                    Ok(v)
                },
                Err(e) => Err(e),
            };
        }
        if b.len() >= 19 && b[0] == 19 && tdf_signature_at_one(b) {
            let fonts = TdfFont::load_arc(bytes);
            return match fonts {
                Err(e) => Err(e),
                Ok(fonts) => {
                    if fonts.len() == 0 {
                        Err(FontError::TdfEmptyBundle)
                    } else {
                        Ok(wrap_tdf(fonts))
                    }
                },
            };
        }
        Err(FontError::UnrecognizedFormat)
    }

    /// The font in its own format's bytes.
    pub fn to_bytes(&self) -> (r: Result<Vec<u8>, FontError>)
        requires
            self.wf(),
        ensures
            match self {
                Font::Tdf(t) => (r is Ok <==> t.name_bytes().len() <= 12) && (r matches Ok(v)
                    ==> v@ == crate::tdf::tdf_header() + t.font_bytes()),
                Font::Figlet(f) => r matches Ok(v) && v@ == vstd::utf8::encode_utf8(f.figlet_text()),
            },
    {
        match self {
            Font::Tdf(f) => f.to_bytes(),
            Font::Figlet(f) => f.to_bytes(),
        }
    }

    /// The usual file extension of the font's format.
    pub fn default_extension(&self) -> (r: &'static str)
        ensures
            r@ == (match self {
                Font::Tdf(_) => "tdf"@,
                Font::Figlet(_) => "flf"@,
            }),
    {
        match self {
            Font::Tdf(_) => "tdf",
            Font::Figlet(_) => "flf",
        }
    }
}

/// Whether bytes 1 to 18 are the TDF signature.
fn tdf_signature_at_one(b: &Vec<u8>) -> (r: bool)
    requires
        b@.len() >= 19,
    ensures
        r == (b@.subrange(1, 19) == tdf_signature()),
{
    let mut k: usize = 0;
    while k < 18
        invariant
            b@.len() >= 19,
            k <= 18,
            forall|j: int| 0 <= j < k ==> b@[1 + j] == #[trigger] tdf_signature()[j],
        decreases 18 - k,
    {
        if b[1 + k] != crate::tdf::signature_byte(k) {
            assert(b@.subrange(1, 19)[k as int] != tdf_signature()[k as int]);
            return false;
        }
        k = k + 1;
    }
    assert(b@.subrange(1, 19) =~= tdf_signature());
    true
}

/// Each TDF font as a `Font`, in order.
fn wrap_tdf(fonts: Vec<TdfFont>) -> (r: Vec<Font>)
    ensures
        r@.len() == fonts@.len(),
        forall|i: int| 0 <= i < r@.len() ==> (#[trigger] r@[i] matches Font::Tdf(t) && t == fonts@[i]),
{
    let mut fonts = fonts;
    let ghost all = fonts@;
    let mut out: Vec<Font> = Vec::new();
    while fonts.len() > 0
        invariant
            out@.len() + fonts@.len() == all.len(),
            fonts@ == all.subrange(out@.len() as int, all.len() as int),
            forall|i: int| 0 <= i < out@.len() ==> (#[trigger] out@[i] matches Font::Tdf(t) && t == all[i]),
        decreases fonts@.len(),
    {
        let f = fonts.remove(0);
        out.push(Font::Tdf(f));
        assert(fonts@ =~= all.subrange(out@.len() as int, all.len() as int));
    }
    out
}

/// Case fallback: a lowercase letter that the font lacks renders as the glyph of
/// its uppercase form where the font has that.
pub proof fn law_case_fallback(font: &Font, ch: char, up: char, opts: RenderOptions)
    requires
        ch != ' ',
        !font.has_spec(ch),
        lowercase(ch),
        upper_first(ch) == Some(up),
        font.has_spec(up),
        font.glyph_spec(up) is Some,
    ensures
        font.render_spec(ch, opts) == Ok::<Seq<RenderOp>, FontError>(
            render_parts((font.glyph_spec(up)->0).2, opts),
        ),
{
}

/// A character that the font lacks, and whose other case it lacks too (or that
/// has no other case), fails to render with `UnknownChar`.
pub proof fn law_unknown_char(font: &Font, ch: char, opts: RenderOptions)
    requires
        ch != ' ',
        !font.has_spec(ch),
        !lowercase(ch) && !alphabetic(ch) || (match (if lowercase(ch) {
            upper_first(ch)
        } else {
            lower_first(ch)
        }) {
            Some(o) => !font.has_spec(o),
            None => true,
        }),
    ensures
        font.render_spec(ch, opts) == Err::<Seq<RenderOp>, FontError>(FontError::UnknownChar(ch)),
{
    match font {
        Font::Figlet(f) => {
            if let Some(i) = FigletFont::slot_of(ch) {
                f.lemma_has_glyph(i);
            }
        },
        Font::Tdf(t) => {
            if let Some(i) = crate::tdf::tdf_slot(ch) {
                t.lemma_glyph_has(i);
            }
        },
    }
}

/// Overlay and lazy source render alike: where one TDF font holds for `c1` the
/// same glyph as another holds for `c2`, whether each was set by hand or
/// decoded from a parsed buffer, the two characters render to the same steps.
pub proof fn law_overlay_lazy_equivalence(
    a: TdfFont,
    c1: char,
    b: TdfFont,
    c2: char,
    opts: RenderOptions,
)
    requires
        c1 != ' ',
        c2 != ' ',
        a.has_char_spec(c1),
        b.has_char_spec(c2),
        a.glyph_of(c1) is Some,
        a.glyph_of(c1) == b.glyph_of(c2),
    ensures
        Font::Tdf(a).render_spec(c1, opts) == Font::Tdf(b).render_spec(c2, opts),
{
}

} // verus!
