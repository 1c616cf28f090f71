//! The glyph data model and the render engine that turns glyph parts into cells.
use vstd::prelude::*;

use crate::codepage::{
    cp437, cp437_to_unicode, outline_style_char, outline_style_lookup, OUTLINE_STYLE_COUNT,
};
use crate::error::FontError;
use crate::{Cell, FontTarget};

verus! {

/// Whether internal markers are hidden (display) or shown (edit).
#[derive(Clone, Copy, Debug, PartialEq, Eq, Structural)]
pub enum RenderMode {
    Display,
    Edit,
}

/// How a glyph is rendered.
#[derive(Clone, Copy, Debug, PartialEq, Eq, Structural)]
pub struct RenderOptions {
    pub render_mode: RenderMode,
    pub outline_style: usize,
}

impl Default for RenderOptions {
    fn default() -> (r: Self)
        ensures
            r == (RenderOptions { render_mode: RenderMode::Display, outline_style: 0 }),
    {
        RenderOptions { render_mode: RenderMode::Display, outline_style: 0 }
    }
}

impl RenderOptions {
    /// Display mode, outline style 0.
    pub fn display() -> (r: Self)
        ensures
            r == (RenderOptions { render_mode: RenderMode::Display, outline_style: 0 }),
    {
        RenderOptions { render_mode: RenderMode::Display, outline_style: 0 }
    }

    /// Edit mode, outline style 0.
    pub fn edit() -> (r: Self)
        ensures
            r == (RenderOptions { render_mode: RenderMode::Edit, outline_style: 0 }),
    {
        RenderOptions { render_mode: RenderMode::Edit, outline_style: 0 }
    }
}

/// One element of a glyph.
#[derive(Clone, Copy, Debug, PartialEq, Eq, Structural)]
pub enum GlyphPart {
    /// Logical line break.
    NewLine,
    /// End marker (`&`), shown only in edit mode.
    EndMarker,
    /// Hard blank: a space in display mode, a non-breaking space in edit mode.
    HardBlank,
    /// Outline fill marker (`@`).
    FillMarker,
    /// Outline hole marker (`O`).
    OutlineHole,
    /// Outline-style letter, resolved through the outline-style table.
    OutlinePlaceholder(u8),
    /// Plain character.
    Char(char),
    /// Colored character.
    AnsiChar { ch: char, fg: u8, bg: u8, blink: bool },
    /// Transparent cell.
    Skip,
}

/// A glyph: its parts, its widest line and its number of lines.
#[derive(Debug)]
pub struct Glyph {
    pub width: usize,
    pub height: usize,
    pub parts: Vec<GlyphPart>,
}

/// What rendering a glyph asks of a sink, one step at a time.
#[derive(Clone, Copy, Debug, PartialEq, Eq, Structural)]
pub enum RenderOp {
    Draw(Cell),
    NewLine,
    Skip,
}

/// The number of line breaks in a part sequence.
pub open spec fn newline_count(parts: Seq<GlyphPart>) -> nat
    decreases parts.len(),
{
    if parts.len() == 0 {
        0
    } else {
        newline_count(parts.drop_last()) + if parts.last() is NewLine { 1nat } else { 0nat }
    }
}

/// A glyph as a value: width, height and parts.
pub type GlyphModel = (usize, usize, Seq<GlyphPart>);

impl View for Glyph {
    type V = GlyphModel;

    open spec fn view(&self) -> GlyphModel {
        (self.width, self.height, self.parts@)
    }
}

impl Glyph {
    /// A copy of this glyph.
    pub fn copy(&self) -> (r: Glyph)
        ensures
            r@ == self@,
    {
        Glyph { width: self.width, height: self.height, parts: copy_parts(&self.parts) }
    }
}

impl Clone for Glyph {
    fn clone(&self) -> Self {
        self.copy()
    }
}

/// A copy of a part sequence.
pub fn copy_parts(v: &Vec<GlyphPart>) -> (r: Vec<GlyphPart>)
    ensures
        r@ == v@,
{
    let mut r: Vec<GlyphPart> = Vec::new();
    let mut i: usize = 0;
    while i < v.len()
        invariant
            i <= v.len(),
            r@ == v@.subrange(0, i as int),
        decreases v.len() - i,
    {
        r.push(v[i]);
        i = i + 1;
        assert(r@ =~= v@.subrange(0, i as int));
    }
    assert(r@ =~= v@);
    r
}

/// A cell with no colors.
pub open spec fn plain(c: char) -> Cell {
    Cell { ch: c, fg: None, bg: None, blink: false }
}

/// The character an outline placeholder byte renders as under a style: the
/// style's table entry for `'A'..='Q'`, the raw code-page character there when the
/// style is beyond the table, and a space for any other byte.
pub open spec fn outline_char(style: usize, ch: u8) -> char {
    if 65 <= ch && ch <= 81 {
        if style >= OUTLINE_STYLE_COUNT {
            cp437(ch)
        } else {
            outline_style_char(style, (ch - 65) as usize)
        }
    } else {
        ' '
    }
}

/// What one part asks of the sink under the given options: nothing for an end
/// marker in display mode, exactly one step otherwise.
pub open spec fn part_ops(p: GlyphPart, opts: RenderOptions) -> Seq<RenderOp> {
    let edit = opts.render_mode == RenderMode::Edit;
    match p {
        GlyphPart::NewLine => seq![RenderOp::NewLine],
        GlyphPart::EndMarker => if edit {
            seq![RenderOp::Draw(plain('&'))]
        } else {
            Seq::empty()
        },
        GlyphPart::HardBlank => seq![RenderOp::Draw(plain(if edit { cp437(255) } else { ' ' }))],
        GlyphPart::FillMarker => seq![RenderOp::Draw(plain(if edit { '@' } else { ' ' }))],
        GlyphPart::OutlineHole => seq![RenderOp::Draw(plain(if edit { 'O' } else { ' ' }))],
        GlyphPart::OutlinePlaceholder(b) => seq![
            RenderOp::Draw(plain(outline_char(opts.outline_style, b))),
        ],
        GlyphPart::Char(c) => seq![RenderOp::Draw(plain(c))],
        GlyphPart::AnsiChar { ch, fg, bg, blink } => seq![
            RenderOp::Draw(Cell { ch, fg: Some(fg), bg: Some(bg), blink }),
        ],
        GlyphPart::Skip => seq![RenderOp::Skip],
    }
}

/// What a part sequence asks of the sink, in order.
pub open spec fn render_parts(parts: Seq<GlyphPart>, opts: RenderOptions) -> Seq<RenderOp>
    decreases parts.len(),
{
    if parts.len() == 0 {
        Seq::empty()
    } else {
        render_parts(parts.drop_last(), opts) + part_ops(parts.last(), opts)
    }
}

/// Resolves an outline placeholder byte through the outline-style table.
pub fn transform_outline(outline_style: usize, ch: u8) -> (r: char)
    ensures
        r == outline_char(outline_style, ch),
{
    if ch > 64 && ch - 64 <= 17 {
        if outline_style >= OUTLINE_STYLE_COUNT {
            cp437_to_unicode(ch)
        } else {
            outline_style_lookup(outline_style, (ch - 65) as usize)
        }
    } else {
        ' '
    }
}

/// The steps for one part.
fn part_render_ops(p: GlyphPart, options: &RenderOptions, out: &mut Vec<RenderOp>)
    ensures
        final(out)@ == old(out)@ + part_ops(p, *options),
{
    let edit = options.render_mode == RenderMode::Edit;
    match p {
        GlyphPart::NewLine => out.push(RenderOp::NewLine),
        GlyphPart::EndMarker => {
            if edit {
                out.push(RenderOp::Draw(Cell::new('&', None, None, false)));
            }
        },
        GlyphPart::HardBlank => {
            let ch = if edit { cp437_to_unicode(255) } else { ' ' };
            out.push(RenderOp::Draw(Cell::new(ch, None, None, false)));
        },
        GlyphPart::FillMarker => {
            let ch = if edit { '@' } else { ' ' };
            out.push(RenderOp::Draw(Cell::new(ch, None, None, false)));
        },
        GlyphPart::OutlineHole => {
            let ch = if edit { 'O' } else { ' ' };
            out.push(RenderOp::Draw(Cell::new(ch, None, None, false)));
        },
        GlyphPart::OutlinePlaceholder(b) => {
            let ch = transform_outline(options.outline_style, b);
            out.push(RenderOp::Draw(Cell::new(ch, None, None, false)));
        },
        GlyphPart::Char(c) => out.push(RenderOp::Draw(Cell::new(c, None, None, false))),
        GlyphPart::AnsiChar { ch, fg, bg, blink } => {
            out.push(RenderOp::Draw(Cell::new(ch, Some(fg), Some(bg), blink)));
        },
        GlyphPart::Skip => out.push(RenderOp::Skip),
    }
    assert(final(out)@ =~= old(out)@ + part_ops(p, *options));
}

impl Glyph {
    /// The steps that rendering this glyph asks of a sink.
    pub fn render_ops(&self, options: &RenderOptions) -> (r: Vec<RenderOp>)
        ensures
            r@ == render_parts(self.parts@, *options),
    {
        let mut r: Vec<RenderOp> = Vec::new();
        let mut i: usize = 0;
        while i < self.parts.len()
            invariant
                i <= self.parts.len(),
                r@ == render_parts(self.parts@.subrange(0, i as int), *options),
            decreases self.parts.len() - i,
        {
            let ghost before = self.parts@.subrange(0, i as int);
            part_render_ops(self.parts[i], options, &mut r);
            i = i + 1;
            assert(self.parts@.subrange(0, i as int).drop_last() =~= before);
        }
        assert(self.parts@.subrange(0, self.parts.len() as int) =~= self.parts@);
        r
    }

    /// Renders this glyph onto a sink: edit mode shows the internal markers,
    /// display mode hides them.
    pub fn render<T: FontTarget>(&self, target: &mut T, options: &RenderOptions) -> (r: Result<
        (),
        FontError,
    >)
        ensures
            r is Err ==> r == Err::<(), FontError>(FontError::InvalidGlyph),
            render_parts(self.parts@, *options).len() == 0 ==> r is Ok,
    {
        let ops = self.render_ops(options);
        apply_ops(&ops, target)
    }
}

/// Hands render steps to a sink in order, stopping at the first refusal.
pub fn apply_ops<T: FontTarget>(ops: &Vec<RenderOp>, target: &mut T) -> (r: Result<(), FontError>)
    ensures
        r is Err ==> r == Err::<(), FontError>(FontError::InvalidGlyph),
        ops@.len() == 0 ==> r is Ok,
{
    let mut i: usize = 0;
    while i < ops.len()
        invariant
            i <= ops.len(),
        decreases ops.len() - i,
    {
        let res = match ops[i] {
            RenderOp::Draw(c) => target.draw(c),
            RenderOp::NewLine => target.next_line(),
            RenderOp::Skip => target.skip(),
        };
        if res.is_err() {
            return Err(FontError::InvalidGlyph);
        }
        i = i + 1;
    }
    Ok(())
}

} // verus!
