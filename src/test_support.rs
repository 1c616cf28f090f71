//! A sink that keeps what is drawn, line by line.
use vstd::prelude::*;

use crate::error::FontError;
use crate::{Cell, FontTarget};

verus! {

/// Collects drawn cells into lines.
pub struct BufferTarget {
    pub lines: Vec<Vec<Cell>>,
    cur_line: usize,
}

impl BufferTarget {
    /// The lines as sequences of cells.
    pub closed spec fn grid(&self) -> Seq<Seq<Cell>> {
        Seq::new(self.lines@.len(), |i: int| self.lines@[i]@)
    }

    /// The line that the next cell goes to.
    pub closed spec fn line(&self) -> nat {
        self.cur_line as nat
    }

    /// One empty line, drawing at its start.
    pub fn new() -> (r: Self)
        ensures
            r.grid() == seq![Seq::<Cell>::empty()],
            r.line() == 0,
    {
        let r = BufferTarget { lines: vec![Vec::new()], cur_line: 0 };
        assert(r.grid() =~= seq![Seq::<Cell>::empty()]);
        r
    }

    /// Appends a cell to the current line, adding lines up to it where needed.
    pub fn put(&mut self, cell: Cell)
        ensures
            final(self).line() == old(self).line(),
            old(self).line() < old(self).grid().len() ==> final(self).grid() == old(self).grid().update(
                old(self).line() as int,
                old(self).grid()[old(self).line() as int].push(cell),
            ),
    {
        if self.cur_line >= self.lines.len() {
            self.lines.push(Vec::new());
        }
        if self.cur_line < self.lines.len() {
            let ghost old_grid = self.grid();
            self.lines[self.cur_line].push(cell);
            assert(old(self).line() < old(self).grid().len() ==> self.grid() =~= old_grid.update(
                self.cur_line as int,
                old_grid[self.cur_line as int].push(cell),
            ));
        }
    }

    /// Moves to the next line, adding it where needed.
    pub fn advance_line(&mut self)
        ensures
            old(self).line() + 1 < old(self).grid().len() ==> final(self).grid() == old(self).grid(),
            old(self).line() + 1 == old(self).grid().len() ==> final(self).grid() == old(self).grid().push(Seq::empty()),
            old(self).line() < usize::MAX ==> final(self).line() == old(self).line() + 1,
    {
        if self.cur_line < usize::MAX {
            self.cur_line = self.cur_line + 1;
        }
        if self.cur_line >= self.lines.len() {
            let ghost old_grid = self.grid();
            self.lines.push(Vec::new());
            assert(self.grid() =~= old_grid.push(Seq::empty()));
        }
    }
}

impl FontTarget for BufferTarget {
    type Error = FontError;

    fn draw(&mut self, cell: Cell) -> Result<(), FontError> {
        self.put(cell);
        Ok(())
    }

    fn next_line(&mut self) -> Result<(), FontError> {
        self.advance_line();
        Ok(())
    }
}

} // verus!
