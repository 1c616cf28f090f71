//! A sink that lays glyphs side by side and turns them into ANSI text.
use vstd::prelude::*;

use crate::error::FontError;
use crate::font::Font;
use crate::glyph::{RenderOp, RenderOptions};
use crate::codepage::OUTLINE_STYLE_COUNT;
use crate::text::{
    decimal, parse_usize, parse_usize_spec, push_decimal, str_chars, string_from_chars,
};
use crate::{Cell, FontTarget};

verus! {

/// The DOS text-mode palette: red, green and blue of color `i`.
pub open spec fn palette(i: u8) -> (u8, u8, u8) {
    match i {
        0 => (0, 0, 0),
        1 => (0, 0, 170),
        2 => (0, 170, 0),
        3 => (0, 170, 170),
        4 => (170, 0, 0),
        5 => (170, 0, 170),
        6 => (170, 85, 0),
        7 => (170, 170, 170),
        8 => (85, 85, 85),
        9 => (85, 85, 255),
        10 => (85, 255, 85),
        11 => (85, 255, 255),
        12 => (255, 85, 85),
        13 => (255, 85, 255),
        14 => (255, 255, 85),
        _ => (255, 255, 255),
    }
}

/// The DOS text-mode palette.
fn palette_rgb(i: u8) -> (r: (u8, u8, u8))
    ensures
        r == palette(i),
{
    match i {
        0 => (0, 0, 0),
        1 => (0, 0, 170),
        2 => (0, 170, 0),
        3 => (0, 170, 170),
        4 => (170, 0, 0),
        5 => (170, 0, 170),
        6 => (170, 85, 0),
        7 => (170, 170, 170),
        8 => (85, 85, 85),
        9 => (85, 85, 255),
        10 => (85, 255, 85),
        11 => (85, 255, 255),
        12 => (255, 85, 85),
        13 => (255, 85, 255),
        14 => (255, 255, 85),
        _ => (255, 255, 255),
    }
}

/// A plain space.
pub open spec fn blank() -> Cell {
    Cell { ch: ' ', fg: None, bg: None, blink: false }
}

/// A line padded with blanks up to `x` cells.
pub open spec fn padded(l: Seq<Cell>, x: int) -> Seq<Cell> {
    if l.len() < x {
        l + Seq::new((x - l.len()) as nat, |i: int| blank())
    } else {
        l
    }
}

/// The grid after drawing `cell` on line `line` at column `x`: lines added up to
/// it, the line padded to `x`, the cell appended.
pub open spec fn after_draw(g: Seq<Seq<Cell>>, line: int, x: int, cell: Cell) -> Seq<Seq<Cell>> {
    let g1 = if line >= g.len() {
        g + Seq::new((line + 1 - g.len()) as nat, |i: int| Seq::<Cell>::empty())
    } else {
        g
    };
    g1.update(line, padded(g1[line], x).push(cell))
}

/// The longest line of the first `n` lines.
pub open spec fn widest(g: Seq<Seq<Cell>>, n: int) -> int
    decreases n,
{
    if n <= 0 {
        0
    } else {
        let m = widest(g, n - 1);
        if g[n - 1].len() > m {
            g[n - 1].len() as int
        } else {
            m
        }
    }
}

/// The escape sequence that sets a 24-bit color; `sel` is 38 for the foreground,
/// 48 for the background.
pub open spec fn color_escape(sel: nat, c: u8) -> Seq<char> {
    let (r, g, b) = palette(c % 16);
    seq!['\u{1b}', '['] + decimal(sel) + seq![';', '2', ';'] + decimal(r as nat) + seq![';']
        + decimal(g as nat) + seq![';'] + decimal(b as nat) + seq!['m']
}

/// The text of one cell: its colors' escapes, then its character.
pub open spec fn cell_text(c: Cell) -> Seq<char> {
    (match c.fg {
        Some(f) => color_escape(38, f),
        None => Seq::empty(),
    }) + (match c.bg {
        Some(b) => color_escape(48, b),
        None => Seq::empty(),
    }) + seq![c.ch]
}

/// The text of the first `n` cells of a line.
pub open spec fn line_text(l: Seq<Cell>, n: int) -> Seq<char>
    decreases n,
{
    if n <= 0 {
        Seq::empty()
    } else {
        line_text(l, n - 1) + cell_text(l[n - 1])
    }
}

/// The text of the first `n` lines: lines apart by newlines, each closed by a
/// reset of the attributes.
pub open spec fn grid_text(g: Seq<Seq<Cell>>, n: int) -> Seq<char>
    decreases n,
{
    if n <= 0 {
        Seq::empty()
    } else {
        grid_text(g, n - 1) + (if n > 1 {
            seq!['\n']
        } else {
            Seq::empty()
        }) + line_text(g[n - 1], g[n - 1].len() as int) + seq!['\u{1b}', '[', '0', 'm']
    }
}

/// A console's drawn lines, current line and current glyph's column.
pub type ConsoleState = (Seq<Seq<Cell>>, nat, nat);

/// The console after one render step; a transparent cell is drawn as a space.
pub open spec fn console_step(st: ConsoleState, op: RenderOp) -> ConsoleState {
    match op {
        RenderOp::Draw(c) => (after_draw(st.0, st.1 as int, st.2 as int, c), st.1, st.2),
        RenderOp::NewLine => (st.0, if st.1 < usize::MAX { st.1 + 1 } else { st.1 }, st.2),
        RenderOp::Skip => (after_draw(st.0, st.1 as int, st.2 as int, blank()), st.1, st.2),
    }
}

/// The console after a sequence of render steps.
pub open spec fn console_steps(st: ConsoleState, ops: Seq<RenderOp>) -> ConsoleState
    decreases ops.len(),
{
    if ops.len() == 0 {
        st
    } else {
        console_step(console_steps(st, ops.drop_last()), ops.last())
    }
}

/// The console after moving to the next character.
pub open spec fn console_next_char(st: ConsoleState) -> ConsoleState {
    (st.0, 0, widest(st.0, st.0.len() as int) as nat)
}

/// The console after rendering the first `n` characters of a text, each followed
/// by a move to the next character.
pub open spec fn text_state(font: &Font, text: Seq<char>, opts: RenderOptions, n: int) -> ConsoleState
    decreases n,
{
    if n <= 0 {
        (seq![Seq::<Cell>::empty()], 0, 0)
    } else {
        console_next_char(
            console_steps(
                text_state(font, text, opts, n - 1),
                font.render_spec(text[n - 1], opts)->Ok_0,
            ),
        )
    }
}

/// Renders glyphs next to each other: lines within a glyph go down from the
/// glyph's left edge, and each character starts right of the widest line so far.
pub struct ConsoleRenderer {
    lines: Vec<Vec<Cell>>,
    cur_line: usize,
    cur_x: usize,
}

impl ConsoleRenderer {
    /// The drawn lines.
    pub closed spec fn grid(&self) -> Seq<Seq<Cell>> {
        Seq::new(self.lines@.len(), |i: int| self.lines@[i]@)
    }

    /// The line the next cell goes to.
    pub closed spec fn line(&self) -> nat {
        self.cur_line as nat
    }

    /// The column at which the current glyph starts.
    pub closed spec fn column(&self) -> nat {
        self.cur_x as nat
    }

    /// The drawn lines, the current line and the current glyph's column.
    pub open spec fn state(&self) -> ConsoleState {
        (self.grid(), self.line(), self.column())
    }

    /// One empty line; drawing starts at its left.
    pub fn new() -> (r: Self)
        ensures
            r.grid() == seq![Seq::<Cell>::empty()],
            r.line() == 0,
            r.column() == 0,
    {
        let r = ConsoleRenderer { lines: vec![Vec::new()], cur_line: 0, cur_x: 0 };
        assert(r.grid() =~= seq![Seq::<Cell>::empty()]);
        r
    }

    /// Moves to the next character: its glyph starts right of the widest line and
    /// at the top.
    pub fn next_char(&mut self)
        ensures
            final(self).grid() == old(self).grid(),
            final(self).line() == 0,
            final(self).column() == widest(old(self).grid(), old(self).grid().len() as int),
    {
        let ghost g = self.grid();
        let mut m: usize = 0;
        let mut i: usize = 0;
        while i < self.lines.len()
            invariant
                g == self.grid(),
                i <= self.lines@.len(),
                m as int == widest(g, i as int),
            decreases self.lines.len() - i,
        {
            if self.lines[i].len() > m {
                m = self.lines[i].len();
            }
            i = i + 1;
        }
        self.cur_x = m;
        self.cur_line = 0;
    }

    /// Draws a cell on the current line at the current glyph's column or after.
    pub fn put(&mut self, cell: Cell)
        ensures
            final(self).grid() == after_draw(
                old(self).grid(),
                old(self).line() as int,
                old(self).column() as int,
                cell,
            ),
            final(self).line() == old(self).line(),
            final(self).column() == old(self).column(),
    {
        let ghost g = self.grid();
        let ghost line = self.cur_line as int;
        let ghost g1 = if line >= g.len() {
            g + Seq::new((line + 1 - g.len()) as nat, |i: int| Seq::<Cell>::empty())
        } else {
            g
        };
        while self.cur_line >= self.lines.len()
            invariant
                g.len() <= self.lines@.len() <= line + 1 || self.lines@.len() == g.len(),
                forall|i: int| 0 <= i < g.len() ==> (#[trigger] self.lines@[i])@ == g[i],
                forall|i: int| g.len() <= i < self.lines@.len() ==> (#[trigger] self.lines@[i])@
                    == Seq::<Cell>::empty(),
                line == self.cur_line as int,
                self.cur_line == old(self).cur_line,
                self.cur_x == old(self).cur_x,
                g == old(self).grid(),
            decreases self.cur_line + 1 - self.lines@.len(),
        {
            self.lines.push(Vec::new());
        }
        assert(self.grid() =~= g1);
        let x = self.cur_x;
        let idx = self.cur_line;
        let ghost start = self.lines@[idx as int]@;
        while self.lines[idx].len() < x
            invariant
                idx < self.lines@.len(),
                idx == self.cur_line,
                x == self.cur_x,
                self.cur_line == old(self).cur_line,
                self.cur_x == old(self).cur_x,
                start == g1[idx as int],
                start.len() <= self.lines@[idx as int]@.len(),
                self.lines@[idx as int]@.len() <= x || self.lines@[idx as int]@.len() == start.len(),
                self.lines@[idx as int]@ == start + Seq::new(
                    (self.lines@[idx as int]@.len() - start.len()) as nat,
                    |i: int| blank(),
                ),
                forall|i: int| 0 <= i < self.lines@.len() && i != idx ==> (#[trigger] self.lines@[i])@
                    == g1[i],
                self.lines@.len() == g1.len(),
            decreases x - self.lines@[idx as int]@.len(),
        {
            let ghost before = self.lines@[idx as int]@;
            self.lines[idx].push(Cell::new(' ', None, None, false));
            assert(self.lines@[idx as int]@ =~= start + Seq::new(
                (self.lines@[idx as int]@.len() - start.len()) as nat,
                |i: int| blank(),
            ));
        }
        assert(self.lines@[idx as int]@ =~= padded(start, x as int));
        self.lines[idx].push(cell);
        assert(self.grid() =~= after_draw(g, line, x as int, cell));
    }

    /// Moves down one line within the current glyph.
    pub fn advance(&mut self)
        ensures
            final(self).grid() == old(self).grid(),
            final(self).column() == old(self).column(),
            final(self).line() == if old(self).line() < usize::MAX {
                old(self).line() + 1
            } else {
                old(self).line()
            },
    {
        if self.cur_line < usize::MAX {
            self.cur_line = self.cur_line + 1;
        }
    }

    /// The drawn lines as ANSI text: 24-bit color escapes from the DOS palette
    /// before colored cells, an attribute reset at the end of each line.
    pub fn into_ansi_string(self) -> (r: String)
        ensures
            r@ == grid_text(self.grid(), self.grid().len() as int),
    {
        let ghost g = self.grid();
        let mut out: Vec<char> = Vec::new();
        let mut li: usize = 0;
        while li < self.lines.len()
            invariant
                g == self.grid(),
                li <= self.lines@.len(),
                out@ == grid_text(g, li as int),
            decreases self.lines.len() - li,
        {
            if li > 0 {
                out.push('\n');
            }
            let ghost line_start = out@;
            let line = &self.lines[li];
            let mut k: usize = 0;
            while k < line.len()
                invariant
                    line@ == g[li as int],
                    k <= line@.len(),
                    out@ == line_start + line_text(line@, k as int),
                decreases line.len() - k,
            {
                push_cell(line[k], &mut out);
                k = k + 1;
                assert(out@ =~= line_start + line_text(line@, k as int));
            }
            out.push('\u{1b}');
            out.push('[');
            out.push('0');
            out.push('m');
            li = li + 1;
            assert(out@ =~= grid_text(g, li as int));
        }
        string_from_chars(&out)
    }
}

/// Appends a color escape.
fn push_color(sel: usize, c: u8, out: &mut Vec<char>)
    ensures
        final(out)@ == old(out)@ + color_escape(sel as nat, c),
{
    let (r, g, b) = palette_rgb(c % 16);
    out.push('\u{1b}');
    out.push('[');
    push_decimal(sel, out);
    out.push(';');
    out.push('2');
    out.push(';');
    push_decimal(r as usize, out);
    out.push(';');
    push_decimal(g as usize, out);
    out.push(';');
    push_decimal(b as usize, out);
    out.push('m');
    assert(final(out)@ =~= old(out)@ + color_escape(sel as nat, c));
}

/// Appends the text of one cell.
fn push_cell(c: Cell, out: &mut Vec<char>)
    ensures
        final(out)@ == old(out)@ + cell_text(c),
{
    match c.fg {
        Some(f) => push_color(38, f, out),
        None => {},
    }
    match c.bg {
        Some(b) => push_color(48, b, out),
        None => {},
    }
    out.push(c.ch);
    assert(final(out)@ =~= old(out)@ + cell_text(c));
}

impl FontTarget for ConsoleRenderer {
    type Error = FontError;

    fn draw(&mut self, cell: Cell) -> Result<(), FontError> {
        self.put(cell);
        Ok(())
    }

    fn next_line(&mut self) -> Result<(), FontError> {
        self.advance();
        Ok(())
    }
}

/// Carries out render steps on the console; a transparent cell is drawn as a space.
fn apply_console(ops: &Vec<RenderOp>, renderer: &mut ConsoleRenderer)
    ensures
        final(renderer).state() == console_steps(old(renderer).state(), ops@),
{
    let mut i: usize = 0;
    while i < ops.len()
        invariant
            i <= ops@.len(),
            renderer.state() == console_steps(old(renderer).state(), ops@.subrange(0, i as int)),
        decreases ops.len() - i,
    {
        assert(ops@.subrange(0, i + 1).drop_last() =~= ops@.subrange(0, i as int));
        match ops[i] {
            RenderOp::Draw(c) => renderer.put(c),
            RenderOp::NewLine => renderer.advance(),
            RenderOp::Skip => renderer.put(Cell::new(' ', None, None, false)),
        }
        i = i + 1;
    }
    assert(ops@.subrange(0, i as int) =~= ops@);
}

/// Renders a text with a font, glyphs side by side, as ANSI text; fails with the
/// error of the first character that the font cannot render.
pub fn render_to_ansi(font: &Font, text: &str, options: &RenderOptions) -> (r: Result<
    String,
    FontError,
>)
    requires
        font.wf(),
    ensures
        r is Ok <==> forall|i: int|
            0 <= i < text@.len() ==> #[trigger] font.render_spec(text@[i], *options) is Ok,
        r matches Err(e) ==> exists|i: int|
            0 <= i < text@.len() && #[trigger] font.render_spec(text@[i], *options) == Err::<
                Seq<RenderOp>,
                FontError,
            >(e),
        r matches Ok(s) ==> s@ == grid_text(
            text_state(font, text@, *options, text@.len() as int).0,
            text_state(font, text@, *options, text@.len() as int).0.len() as int,
        ),
{
    let chars = str_chars(text);
    let mut renderer = ConsoleRenderer::new();
    let mut i: usize = 0;
    while i < chars.len()
        invariant
            font.wf(),
            chars@ == text@,
            i <= chars@.len(),
            forall|j: int| 0 <= j < i ==> #[trigger] font.render_spec(text@[j], *options) is Ok,
            renderer.state() == text_state(font, text@, *options, i as int),
        decreases chars.len() - i,
    {
        match font.render_ops(chars[i], options) {
            Ok(ops) => apply_console(&ops, &mut renderer),
            Err(e) => {
                assert(font.render_spec(text@[i as int], *options) == Err::<Seq<RenderOp>, FontError>(e));
                return Err(e);
            },
        }
        renderer.next_char();
        i = i + 1;
    }
    Ok(renderer.into_ansi_string())
}

/// Appends the characters of a string literal.
fn push_str(s: &str, out: &mut Vec<char>)
    ensures
        final(out)@ == old(out)@ + s@,
{
    let cs = str_chars(s);
    let mut i: usize = 0;
    while i < cs.len()
        invariant
            i <= cs@.len(),
            out@ == old(out)@ + cs@.subrange(0, i as int),
        decreases cs.len() - i,
    {
        out.push(cs[i]);
        i = i + 1;
        assert(out@ =~= old(out)@ + cs@.subrange(0, i as int));
    }
    assert(cs@.subrange(0, i as int) =~= cs@);
}

/// Reads an outline-style argument: a decimal number below 19.
pub fn validate_outline_style(s: &str) -> (r: Result<usize, String>)
    ensures
        r is Ok <==> (parse_usize_spec(s@) matches Some(v) && v < OUTLINE_STYLE_COUNT),
        r matches Ok(v) ==> parse_usize_spec(s@) == Some(v),
{
    let cs = str_chars(s);
    match parse_usize(&cs) {
        None => {
            let mut msg: Vec<char> = Vec::new();
            msg.push('\'');
            push_str(s, &mut msg);
            push_str("' is not a valid number", &mut msg);
            Err(string_from_chars(&msg))
        },
        Some(value) => {
            if value >= OUTLINE_STYLE_COUNT {
                let mut msg: Vec<char> = Vec::new();
                push_str("outline style ", &mut msg);
                push_decimal(value, &mut msg);
                push_str(" is out of range (valid: 0..", &mut msg);
                push_decimal(OUTLINE_STYLE_COUNT - 1, &mut msg);
                msg.push(')');
                Err(string_from_chars(&msg))
            } else {
                Ok(value)
            }
        },
    }
}

} // verus!
