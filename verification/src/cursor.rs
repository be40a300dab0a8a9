//! The cursor: a position on the grid and the moves that keep it there.

use vstd::prelude::*;

verus! {

/// Position of the write head on a grid, as zero-based row and column.
///
/// A cursor carries no size of its own: every operation that can run into an
/// edge takes the grid's size, and the results are stated for any cursor, in
/// bounds or not.
#[derive(Clone, Copy, Debug, PartialEq, Eq, Structural)]
pub struct Cursor {
    pub row: usize,
    pub col: usize,
}

impl Cursor {
    /// Whether the cursor names a cell of a grid with `height` rows and `width` columns.
    pub open spec fn in_bounds(self, height: usize, width: usize) -> bool {
        self.row < height && self.col < width
    }

    /// `row - n`, stopping at row 0.
    pub open spec fn moved_up(self, n: usize) -> Cursor {
        Cursor { row: if self.row >= n { (self.row - n) as usize } else { 0 }, col: self.col }
    }

    /// `row + n`, stopping at the last row.
    pub open spec fn moved_down(self, n: usize, height: usize) -> Cursor {
        Cursor {
            row: if self.row + n <= height - 1 {
                (self.row + n) as usize
            } else {
                (height - 1) as usize
            },
            col: self.col,
        }
    }

    /// `col + n`, stopping at the last column.
    pub open spec fn moved_forward(self, n: usize, width: usize) -> Cursor {
        Cursor {
            row: self.row,
            col: if self.col + n <= width - 1 {
                (self.col + n) as usize
            } else {
                (width - 1) as usize
            },
        }
    }

    /// `col - n`, stopping at column 0.
    pub open spec fn moved_back(self, n: usize) -> Cursor {
        Cursor { row: self.row, col: if self.col >= n { (self.col - n) as usize } else { 0 } }
    }

    /// The requested cell, each coordinate stopping at the last row or column.
    pub open spec fn positioned(row: usize, col: usize, height: usize, width: usize) -> Cursor {
        Cursor {
            row: if row <= height - 1 { row } else { (height - 1) as usize },
            col: if col <= width - 1 { col } else { (width - 1) as usize },
        }
    }

    /// Whether a line feed from this row runs off the bottom of the grid.
    pub open spec fn newline_scrolls(self, height: usize) -> bool {
        self.row + 1 >= height
    }

    /// The start of the next row, or of the last row when there is no next one.
    pub open spec fn after_newline(self, height: usize) -> Cursor {
        Cursor {
            row: if self.newline_scrolls(height) {
                (height - 1) as usize
            } else {
                (self.row + 1) as usize
            },
            col: 0,
        }
    }

    /// One column to the left, staying put in column 0.
    pub open spec fn after_backspace(self) -> Cursor {
        Cursor { row: self.row, col: if self.col > 0 { (self.col - 1) as usize } else { 0 } }
    }

    /// Whether stepping one cell to the right leaves the current row.
    pub open spec fn advance_wraps(self, width: usize) -> bool {
        self.col + 1 >= width
    }

    /// Whether stepping one cell to the right runs off the bottom of the grid.
    pub open spec fn advance_scrolls(self, width: usize, height: usize) -> bool {
        self.advance_wraps(width) && self.newline_scrolls(height)
    }

    /// One cell to the right, wrapping to the start of the next row at the right edge.
    pub open spec fn after_advance(self, width: usize, height: usize) -> Cursor {
        if self.advance_wraps(width) {
            self.after_newline(height)
        } else {
            Cursor { row: self.row, col: (self.col + 1) as usize }
        }
    }

    /// The cursor in the upper left corner.
    pub fn new() -> (c: Cursor)
        ensures
            c == (Cursor { row: 0, col: 0 }),
    {
        Cursor { row: 0, col: 0 }
    }

    /// Moves up by `n` rows, stopping at the top.
    pub fn move_up(&mut self, n: usize)
        ensures
            *final(self) == old(self).moved_up(n),
    {
        self.row = if self.row >= n { self.row - n } else { 0 };
    }

    /// Moves down by `n` rows, stopping at the last row.
    pub fn move_down(&mut self, n: usize, max_height: usize)
        requires
            max_height >= 1,
        ensures
            *final(self) == old(self).moved_down(n, max_height),
    {
        let last: usize = max_height - 1;
        self.row = if self.row <= last && n <= last - self.row { self.row + n } else { last };
    }

    /// Moves right by `n` columns, stopping at the last column.
    pub fn move_forward(&mut self, n: usize, max_width: usize)
        requires
            max_width >= 1,
        ensures
            *final(self) == old(self).moved_forward(n, max_width),
    {
        let last: usize = max_width - 1;
        self.col = if self.col <= last && n <= last - self.col { self.col + n } else { last };
    }

    /// Moves left by `n` columns, stopping at column 0.
    pub fn move_back(&mut self, n: usize)
        ensures
            *final(self) == old(self).moved_back(n),
    {
        self.col = if self.col >= n { self.col - n } else { 0 };
    }

    /// Jumps to `(row, col)`, each coordinate stopping at the last row or column.
    pub fn set_position(&mut self, row: usize, col: usize, max_height: usize, max_width: usize)
        requires
            max_height >= 1,
            max_width >= 1,
        ensures
            *final(self) == Cursor::positioned(row, col, max_height, max_width),
    {
        self.row = if row <= max_height - 1 { row } else { max_height - 1 };
        self.col = if col <= max_width - 1 { col } else { max_width - 1 };
    }

    /// Returns to column 0 of the current row.
    pub fn carriage_return(&mut self)
        ensures
            *final(self) == (Cursor { row: old(self).row, col: 0 }),
    {
        self.col = 0;
    }

    /// Goes to the start of the next row. At the bottom the cursor stays on the
    /// last row and the result asks the caller to scroll the grid.
    pub fn newline(&mut self, max_height: usize) -> (scroll_needed: bool)
        requires
            max_height >= 1,
        ensures
            *final(self) == old(self).after_newline(max_height),
            scroll_needed == old(self).newline_scrolls(max_height),
    {
        self.col = 0;
        if self.row >= max_height - 1 {
            self.row = max_height - 1;
            true
        } else {
            self.row = self.row + 1;
            false
        }
    }

    /// Moves one column to the left; in column 0 nothing happens.
    pub fn backspace(&mut self)
        ensures
            *final(self) == old(self).after_backspace(),
    {
        if self.col > 0 {
            self.col = self.col - 1;
        }
    }

    /// Steps one cell to the right. At the right edge the cursor wraps to the
    /// start of the next row; if there is none it stays on the last row and the
    /// result asks the caller to scroll the grid.
    pub fn advance(&mut self, max_width: usize, max_height: usize) -> (scroll_needed: bool)
        requires
            max_height >= 1,
        ensures
            *final(self) == old(self).after_advance(max_width, max_height),
            scroll_needed == old(self).advance_scrolls(max_width, max_height),
    {
        if max_width == 0 || self.col >= max_width - 1 {
            self.newline(max_height)
        } else {
            self.col = self.col + 1;
            false
        }
    }

    /// The position as `(row, col)`.
    pub fn get_position(&self) -> (p: (usize, usize))
        ensures
            p == (self.row, self.col),
    {
        (self.row, self.col)
    }
}

} // verus!
