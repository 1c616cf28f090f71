//! Codec and rendering engine for retro ASCII-art fonts: the binary TheDraw
//! bundle format and the FIGlet text format.
use vstd::prelude::*;

mod archive;
pub mod codepage;
pub mod console;
pub mod convert;
mod error;
pub mod figlet;
pub mod font;
pub mod glyph;
pub mod roundtrip;
pub mod tdf;
pub mod test_support;
pub mod text;

pub use codepage::OUTLINE_STYLE_COUNT;
pub use error::FontError;
pub use font::Font;
pub use glyph::{transform_outline, Glyph, GlyphPart, RenderMode, RenderOp, RenderOptions};

verus! {

/// One styled cell, as a render emits it.
#[derive(Clone, Copy, Debug, PartialEq, Eq, Structural)]
pub struct Cell {
    pub ch: char,
    pub fg: Option<u8>,
    pub bg: Option<u8>,
    pub blink: bool,
}

impl Cell {
    /// A cell with the given character, colors and blink flag.
    pub fn new(ch: char, fg: Option<u8>, bg: Option<u8>, blink: bool) -> (r: Self)
        ensures
            r == (Cell { ch, fg, bg, blink }),
    {
        Cell { ch, fg, bg, blink }
    }
}

/// A grid-like sink that a glyph is drawn onto.
pub trait FontTarget {
    type Error;

    /// Draws one cell at the current position.
    fn draw(&mut self, cell: Cell) -> Result<(), Self::Error>;

    /// Moves to the start of the next line.
    fn next_line(&mut self) -> Result<(), Self::Error>;

    /// Hints at the width of the line about to be drawn.
    fn line_width_hint(&mut self, _width: usize) {
    }

    /// Passes over a transparent cell; by default draws a plain space.
    fn skip(&mut self) -> Result<(), Self::Error> {
        self.draw(Cell::new(' ', None, None, false))
    }
}

} // verus!
