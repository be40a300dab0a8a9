//! The grid of characters: cells, scrolling, the region clears, and the
//! two renderings of a grid as text.

use crate::text::push_range;
use vstd::prelude::*;

verus! {

/// A row of `width` spaces.
pub open spec fn blank_row(width: usize) -> Seq<char> {
    Seq::new(width as nat, |j: int| ' ')
}

/// A grid of `height` rows of `width` spaces.
pub open spec fn blank_grid(width: usize, height: usize) -> Seq<Seq<char>> {
    Seq::new(height as nat, |i: int| blank_row(width))
}

/// Whether `g` has exactly `height` rows of exactly `width` cells.
pub open spec fn is_grid(g: Seq<Seq<char>>, width: usize, height: usize) -> bool {
    &&& g.len() == height
    &&& forall|i: int| 0 <= i < g.len() ==> (#[trigger] g[i]).len() == width
}

/// The grid with `ch` in cell `(row, col)`; the grid itself where there is no such cell.
pub open spec fn with_char(g: Seq<Seq<char>>, row: usize, col: usize, ch: char) -> Seq<Seq<char>> {
    if row < g.len() && col < g[row as int].len() {
        g.update(row as int, g[row as int].update(col as int, ch))
    } else {
        g
    }
}

/// The grid without its first row and with a blank row added at the bottom.
pub open spec fn scrolled_up(g: Seq<Seq<char>>, width: usize) -> Seq<Seq<char>> {
    g.drop_first().push(blank_row(width))
}

/// The grid with a space in every cell `(i, j)` for which `region(i, j)` holds,
/// and every other cell as it was.
pub open spec fn cleared(g: Seq<Seq<char>>, region: spec_fn(int, int) -> bool) -> Seq<Seq<char>> {
    Seq::new(
        g.len(),
        |i: int| Seq::new(g[i].len(), |j: int| if region(i, j) { ' ' } else { g[i][j] }),
    )
}

/// From the cursor to the end of the screen: the rest of the cursor's row from
/// its column on, and every row below.
pub open spec fn region_to_end(row: usize, col: usize) -> spec_fn(int, int) -> bool {
    |i: int, j: int| i > row || (i == row && j >= col)
}

/// From the start of the screen to the cursor: every row above, and the cells
/// of the cursor's row to the left of the cursor. The cursor's own cell is not part of it.
pub open spec fn region_to_beginning(row: usize, col: usize) -> spec_fn(int, int) -> bool {
    |i: int, j: int| i < row || (i == row && j < col)
}

/// The cursor's row from the cursor's column on.
pub open spec fn region_line_to_end(row: usize, col: usize) -> spec_fn(int, int) -> bool {
    |i: int, j: int| i == row && j >= col
}

/// The cursor's row up to and including the cursor's cell.
pub open spec fn region_line_to_beginning(row: usize, col: usize) -> spec_fn(int, int) -> bool {
    |i: int, j: int| i == row && j <= col
}

/// The whole of one row.
pub open spec fn region_line(row: usize) -> spec_fn(int, int) -> bool {
    |i: int, j: int| i == row
}

/// Columns `from` up to but not including `to` of one row.
pub open spec fn region_span(row: usize, from: usize, to: usize) -> spec_fn(int, int) -> bool {
    |i: int, j: int| i == row && from <= j < to
}

/// Rows `from` up to but not including `to`.
pub open spec fn region_rows(from: usize, to: usize) -> spec_fn(int, int) -> bool {
    |i: int, j: int| from <= i < to
}

/// The old grid's cells where both grids have one, and spaces elsewhere, in a
/// grid of `height` rows of `width` cells.
pub open spec fn resized(g: Seq<Seq<char>>, width: usize, height: usize) -> Seq<Seq<char>> {
    Seq::new(
        height as nat,
        |i: int|
            Seq::new(
                width as nat,
                |j: int|
                    if i < g.len() && j < g[i].len() {
                        g[i][j]
                    } else {
                        ' '
                    },
            ),
    )
}

/// The end-of-row mark of the cell-exact rendering: a backslash, the letter n, and a line break.
pub open spec fn row_mark() -> Seq<char> {
    seq!['\\', 'n', '\n']
}

/// The first `k` rows in the cell-exact rendering: each row's cells followed
/// by the end-of-row mark.
pub open spec fn marked_rows(g: Seq<Seq<char>>, k: int) -> Seq<char>
    decreases k,
{
    if k <= 0 {
        Seq::empty()
    } else {
        marked_rows(g, k - 1) + g[k - 1] + row_mark()
    }
}

/// The cell-exact rendering of a grid: a line break, then every row in full
/// followed by the end-of-row mark.
pub open spec fn verbatim(g: Seq<Seq<char>>) -> Seq<char> {
    seq!['\n'] + marked_rows(g, g.len() as int)
}

/// The length of `row` without its trailing spaces.
pub open spec fn content_len(row: Seq<char>) -> nat
    decreases row.len(),
{
    if row.len() == 0 {
        0
    } else if row.last() == ' ' {
        content_len(row.drop_last())
    } else {
        row.len()
    }
}

/// `row` without its trailing spaces.
pub open spec fn trimmed_row(row: Seq<char>) -> Seq<char> {
    row.take(content_len(row) as int)
}

/// The number of rows of `g` without the trailing rows that hold only spaces.
pub open spec fn content_rows(g: Seq<Seq<char>>) -> nat
    decreases g.len(),
{
    if g.len() == 0 {
        0
    } else if content_len(g.last()) == 0 {
        content_rows(g.drop_last())
    } else {
        g.len()
    }
}

/// The first `k` rows, each without its trailing spaces, with a line break between neighbours.
pub open spec fn joined_rows(g: Seq<Seq<char>>, k: int) -> Seq<char>
    decreases k,
{
    if k <= 0 {
        Seq::empty()
    } else if k == 1 {
        trimmed_row(g[0])
    } else {
        joined_rows(g, k - 1).push('\n') + trimmed_row(g[k - 1])
    }
}

/// The canonical rendering of a grid: rows joined by line breaks, without
/// trailing spaces in any row and without trailing rows of spaces.
pub open spec fn trimmed(g: Seq<Seq<char>>) -> Seq<char> {
    joined_rows(g, content_rows(g) as int)
}

/// A rectangular grid of characters, `height` rows of `width` cells.
pub struct Buffer {
    pub lines: Vec<Vec<char>>,
    pub width: usize,
    pub height: usize,
}

impl View for Buffer {
    type V = Seq<Seq<char>>;

    /// The cells, row by row.
    open spec fn view(&self) -> Seq<Seq<char>> {
        Seq::new(self.lines@.len(), |i: int| self.lines@[i]@)
    }
}

/// A vector of `width` spaces.
fn blank_line(width: usize) -> (line: Vec<char>)
    ensures
        line@ == blank_row(width),
{
    let mut line: Vec<char> = Vec::new();
    let mut j: usize = 0;
    while j < width
        invariant
            j <= width,
            line@ == blank_row(j),
        decreases width - j,
    {
        line.push(' ');
        j = j + 1;
    }
    line
}

impl Buffer {
    /// The grid has the size that the buffer records.
    pub open spec fn wf(&self) -> bool {
        is_grid(self@, self.width, self.height)
    }

    /// A buffer of `height` rows of `width` spaces.
    pub fn new(width: usize, height: usize) -> (b: Buffer)
        ensures
            b.wf(),
            b.width == width,
            b.height == height,
            b@ == blank_grid(width, height),
    {
        let mut lines: Vec<Vec<char>> = Vec::new();
        let mut i: usize = 0;
        while i < height
            invariant
                i <= height,
                lines@.len() == i,
                forall|k: int| 0 <= k < i ==> (#[trigger] lines@[k])@ == blank_row(width),
            decreases height - i,
        {
            lines.push(blank_line(width));
            i = i + 1;
        }
        let b = Buffer { lines, width, height };
        b
    }

    /// A buffer of the new size that keeps the old buffer's cells where both
    /// have one, and holds spaces elsewhere.
    pub fn resize_from(old_buffer: &Buffer, new_width: usize, new_height: usize) -> (b: Buffer)
        requires
            old_buffer.wf(),
        ensures
            b.wf(),
            b.width == new_width,
            b.height == new_height,
            b@ == resized(old_buffer@, new_width, new_height),
    {
        let mut lines: Vec<Vec<char>> = Vec::new();
        let mut i: usize = 0;
        while i < new_height
            invariant
                old_buffer.wf(),
                i <= new_height,
                lines@.len() == i,
                forall|k: int|
                    0 <= k < i ==> (#[trigger] lines@[k])@ == resized(
                        old_buffer@,
                        new_width,
                        new_height,
                    )[k],
            decreases new_height - i,
        {
            let mut line: Vec<char> = Vec::new();
            let mut j: usize = 0;
            while j < new_width
                invariant
                    old_buffer.wf(),
                    i < new_height,
                    j <= new_width,
                    line@ == resized(old_buffer@, new_width, new_height)[i as int].take(j as int),
                decreases new_width - j,
            {
                let ch: char = if i < old_buffer.height && j < old_buffer.width {
                    old_buffer.lines[i][j]
                } else {
                    ' '
                };
                line.push(ch);
                j = j + 1;
            }
            lines.push(line);
            i = i + 1;
        }
        let b = Buffer { lines, width: new_width, height: new_height };
        b
    }

    /// Fills every cell with a space.
    pub fn clear(&mut self)
        requires
            old(self).wf(),
        ensures
            final(self).wf(),
            final(self).width == old(self).width,
            final(self).height == old(self).height,
            final(self)@ == blank_grid(old(self).width, old(self).height),
    {
        let fresh = Buffer::new(self.width, self.height);
        self.lines = fresh.lines;
    }

    /// Drops the first row, moves the others up by one, and adds a row of spaces at the bottom.
    pub fn scroll_up(&mut self)
        requires
            old(self).wf(),
            old(self).height >= 1,
        ensures
            final(self).wf(),
            final(self).width == old(self).width,
            final(self).height == old(self).height,
            final(self)@ == scrolled_up(old(self)@, old(self).width),
    {
        let _ = self.lines.remove(0);
        self.lines.push(blank_line(self.width));
        assert(self@ =~= scrolled_up(old(self)@, old(self).width));
    }

    /// Writes `ch` into cell `(row, col)`; outside the grid nothing happens.
    pub fn set_char(&mut self, row: usize, col: usize, ch: char)
        requires
            old(self).wf(),
        ensures
            final(self).wf(),
            final(self).width == old(self).width,
            final(self).height == old(self).height,
            final(self)@ == with_char(old(self)@, row, col, ch),
    {
        if row < self.height && col < self.width {
            assert(self@[row as int].len() == self.width);
            self.lines[row][col] = ch;
            assert(self@ =~= with_char(old(self)@, row, col, ch));
        }
    }

    /// The character in cell `(row, col)`, or nothing outside the grid.
    pub fn get_char(&self, row: usize, col: usize) -> (r: Option<char>)
        requires
            self.wf(),
        ensures
            r == if row < self.height && col < self.width {
                Some(self@[row as int][col as int])
            } else {
                None
            },
    {
        if row < self.height && col < self.width {
            assert(self@[row as int].len() == self.width);
            Some(self.lines[row][col])
        } else {
            None
        }
    }

    /// Blanks the cells of one row from column `from` up to but not including `to`.
    fn fill_span(&mut self, row: usize, from: usize, to: usize)
        requires
            old(self).wf(),
            row < old(self).height,
            to <= old(self).width,
        ensures
            final(self).wf(),
            final(self).width == old(self).width,
            final(self).height == old(self).height,
            final(self)@ == cleared(old(self)@, region_span(row, from, to)),
    {
        assert(self@ =~~= cleared(old(self)@, region_span(row, from, from)));
        let mut col: usize = from;
        while col < to
            invariant
                self.wf(),
                self.width == old(self).width,
                self.height == old(self).height,
                row < self.height,
                to <= self.width,
                from <= col,
                col <= to || col == from,
                self@ == cleared(old(self)@, region_span(row, from, col)),
            decreases to - col,
        {
            self.set_char(row, col, ' ');
            col = col + 1;
            assert(self@ =~~= cleared(old(self)@, region_span(row, from, col)));
        }
        assert(self@ =~~= cleared(old(self)@, region_span(row, from, to)));
    }

    /// Blanks every cell of the rows from `from` up to but not including `to`.
    fn fill_rows(&mut self, from: usize, to: usize)
        requires
            old(self).wf(),
            to <= old(self).height,
        ensures
            final(self).wf(),
            final(self).width == old(self).width,
            final(self).height == old(self).height,
            final(self)@ == cleared(old(self)@, region_rows(from, to)),
    {
        assert(self@ =~~= cleared(old(self)@, region_rows(from, from)));
        let mut row: usize = from;
        while row < to
            invariant
                self.wf(),
                self.width == old(self).width,
                self.height == old(self).height,
                to <= self.height,
                from <= row,
                row <= to || row == from,
                self@ == cleared(old(self)@, region_rows(from, row)),
            decreases to - row,
        {
            self.fill_span(row, 0, self.width);
            row = row + 1;
            assert(self@ =~~= cleared(old(self)@, region_rows(from, row)));
        }
        assert(self@ =~~= cleared(old(self)@, region_rows(from, to)));
    }

    /// Blanks the cursor's row from the cursor's column on, and every row below.
    pub fn clear_from_cursor_to_end(&mut self, cursor_row: usize, cursor_col: usize)
        requires
            old(self).wf(),
        ensures
            final(self).wf(),
            final(self).width == old(self).width,
            final(self).height == old(self).height,
            final(self)@ == cleared(old(self)@, region_to_end(cursor_row, cursor_col)),
    {
        if cursor_row < self.height {
            let from: usize = if cursor_col < self.width { cursor_col } else { self.width };
            self.fill_span(cursor_row, from, self.width);
            self.fill_rows(cursor_row + 1, self.height);
        }
        assert(self@ =~~= cleared(old(self)@, region_to_end(cursor_row, cursor_col)));
    }

    /// Blanks every row above the cursor, and the cells of the cursor's row to
    /// the left of the cursor. The cell under the cursor keeps its character.
    pub fn clear_from_beginning_to_cursor(&mut self, cursor_row: usize, cursor_col: usize)
        requires
            old(self).wf(),
        ensures
            final(self).wf(),
            final(self).width == old(self).width,
            final(self).height == old(self).height,
            final(self)@ == cleared(old(self)@, region_to_beginning(cursor_row, cursor_col)),
    {
        let rows: usize = if cursor_row < self.height { cursor_row } else { self.height };
        self.fill_rows(0, rows);
        if cursor_row < self.height {
            let to: usize = if cursor_col < self.width { cursor_col } else { self.width };
            self.fill_span(cursor_row, 0, to);
        }
        assert(self@ =~~= cleared(old(self)@, region_to_beginning(cursor_row, cursor_col)));
    }

    /// Blanks the cursor's row from the cursor's column on.
    pub fn clear_line_from_cursor_to_end(&mut self, cursor_row: usize, cursor_col: usize)
        requires
            old(self).wf(),
        ensures
            final(self).wf(),
            final(self).width == old(self).width,
            final(self).height == old(self).height,
            final(self)@ == cleared(old(self)@, region_line_to_end(cursor_row, cursor_col)),
    {
        if cursor_row < self.height {
            let from: usize = if cursor_col < self.width { cursor_col } else { self.width };
            self.fill_span(cursor_row, from, self.width);
        }
        assert(self@ =~~= cleared(old(self)@, region_line_to_end(cursor_row, cursor_col)));
    }

    /// Blanks the cursor's row up to and including the cell under the cursor.
    pub fn clear_line_from_beginning_to_cursor(&mut self, cursor_row: usize, cursor_col: usize)
        requires
            old(self).wf(),
        ensures
            final(self).wf(),
            final(self).width == old(self).width,
            final(self).height == old(self).height,
            final(self)@ == cleared(old(self)@, region_line_to_beginning(cursor_row, cursor_col)),
    {
        if cursor_row < self.height {
            let to: usize = if cursor_col < self.width { cursor_col + 1 } else { self.width };
            self.fill_span(cursor_row, 0, to);
        }
        assert(self@ =~~= cleared(old(self)@, region_line_to_beginning(cursor_row, cursor_col)));
    }

    /// Blanks the whole of one row.
    pub fn clear_entire_line(&mut self, cursor_row: usize)
        requires
            old(self).wf(),
        ensures
            final(self).wf(),
            final(self).width == old(self).width,
            final(self).height == old(self).height,
            final(self)@ == cleared(old(self)@, region_line(cursor_row)),
    {
        if cursor_row < self.height {
            self.fill_span(cursor_row, 0, self.width);
        }
        assert(self@ =~~= cleared(old(self)@, region_line(cursor_row)));
    }

    /// The cell-exact rendering: a line break, then every row in full, each
    /// followed by a backslash, the letter n, and a line break.
    pub fn get_snapshot(&self) -> (s: String)
        requires
            self.wf(),
        ensures
            s@ == verbatim(self@),
    {
        let mut result = String::new();
        result.push('\n');
        let mut i: usize = 0;
        while i < self.height
            invariant
                self.wf(),
                i <= self.height,
                result@ == seq!['\n'] + marked_rows(self@, i as int),
            decreases self.height - i,
        {
            assert(self@[i as int].len() == self.width);
            push_range(&mut result, self.lines[i].as_slice(), 0, self.width);
            result.push('\\');
            result.push('n');
            result.push('\n');
            i = i + 1;
        }
        result
    }

    /// The canonical rendering: the rows joined by line breaks, without
    /// trailing spaces in any row and without trailing rows of spaces.
    pub fn snapshot(&self) -> (s: String)
        requires
            self.wf(),
        ensures
            s@ == trimmed(self@),
    {
        let mut rows: usize = self.height;
        assert(self@.take(rows as int) =~= self@);
        while rows > 0 && row_content_len(self.lines[rows - 1].as_slice()) == 0
            invariant
                self.wf(),
                rows <= self.height,
                content_rows(self@) == content_rows(self@.take(rows as int)),
            decreases rows,
        {
            assert(self@.take(rows as int).drop_last() =~= self@.take(rows - 1));
            rows = rows - 1;
        }
        let mut result = String::new();
        let mut i: usize = 0;
        while i < rows
            invariant
                self.wf(),
                i <= rows <= self.height,
                result@ == joined_rows(self@, i as int),
            decreases rows - i,
        {
            if i > 0 {
                result.push('\n');
            }
            let line = self.lines[i].as_slice();
            let len: usize = row_content_len(line);
            push_range(&mut result, line, 0, len);
            i = i + 1;
        }
        result
    }
}

/// The length of `row` without its trailing spaces.
fn row_content_len(row: &[char]) -> (len: usize)
    ensures
        len == content_len(row@),
        len <= row@.len(),
{
    let mut len: usize = row.len();
    assert(row@.take(len as int) =~= row@);
    while len > 0 && row[len - 1] == ' '
        invariant
            len <= row@.len(),
            content_len(row@) == content_len(row@.take(len as int)),
        decreases len,
    {
        assert(row@.take(len as int).drop_last() =~= row@.take(len - 1));
        len = len - 1;
    }
    len
}

} // verus!
