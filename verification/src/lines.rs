//! Lines of text on a screen: each takes a row, and from the last row on
//! every further line scrolls the grid.

use crate::ansi::commands::{ControlChar, TokenView};
use crate::ansi::lemmas::{lemma_tokenize_line, line_tokens, plain_text};
use crate::buffer::blank_row;
use crate::cursor::Cursor;
use crate::laws::{lemma_tokens_append, lemma_tokens_single};
use crate::screen::Screen;
use vstd::prelude::*;

verus! {

/// `row` with `text` written over its cells from column `col` on.
pub open spec fn row_with(row: Seq<char>, col: int, text: Seq<char>) -> Seq<char> {
    Seq::new(row.len(), |j: int| if col <= j < col + text.len() { text[j - col] } else { row[j] })
}

/// `line` as a row of `width` cells: its characters, then spaces.
pub open spec fn padded(line: Seq<char>, width: usize) -> Seq<char> {
    Seq::new(width as nat, |j: int| if j < line.len() { line[j] } else { ' ' })
}

/// Text that ends before the right edge stays in the cursor's row: it
/// replaces the cells from the cursor on, the cursor ends behind it, and
/// nothing scrolls.
pub proof fn lemma_put_all_in_row(s: Screen, text: Seq<char>)
    requires
        s.wf(),
        s.cursor.col + text.len() < s.width,
    ensures
        s.put_all(text) == (Screen {
            grid: s.grid.update(
                s.cursor.row as int,
                row_with(s.grid[s.cursor.row as int], s.cursor.col as int, text),
            ),
            cursor: Cursor { row: s.cursor.row, col: (s.cursor.col + text.len()) as usize },
            ..s
        }),
    decreases text.len(),
{
    let row = s.cursor.row as int;
    let col = s.cursor.col as int;
    if text.len() == 0 {
        assert(row_with(s.grid[row], col, text) =~= s.grid[row]);
        assert(s.grid.update(row, s.grid[row]) =~= s.grid);
    } else {
        let before = text.drop_last();
        lemma_put_all_in_row(s, before);
        let mid = s.put_all(before);
        let end = mid.put(text.last());
        assert(end.grid =~~= s.grid.update(row, row_with(s.grid[row], col, text)));
    }
}

/// The lines written one after the other, each followed by a line feed.
pub open spec fn feed_lines(s: Screen, lines: Seq<Seq<char>>) -> Screen
    decreases lines.len(),
{
    if lines.len() == 0 {
        s
    } else {
        feed_lines(s.put_all(lines[0]).line_feed(), lines.drop_first())
    }
}

/// Whether every line ends before the right edge of a row of `width` cells.
pub open spec fn short_lines(lines: Seq<Seq<char>>, width: usize) -> bool {
    forall|i: int| 0 <= i < lines.len() ==> (#[trigger] lines[i]).len() < width
}

/// Whether the cursor's row and every row below hold only spaces.
pub open spec fn blank_below(s: Screen) -> bool {
    forall|j: int| s.cursor.row <= j < s.height ==> #[trigger] s.grid[j] == blank_row(s.width)
}

/// The number of times the grid scrolls while `n` lines are fed to a screen
/// whose cursor is in row `row`: once for each line feed in the last row.
pub open spec fn scrolls(row: usize, height: usize, n: nat) -> nat {
    if row + n > height - 1 {
        (row + n - (height - 1)) as nat
    } else {
        0
    }
}

/// What a screen shows after `lines` were fed to it, stated row by row: the
/// rows above the cursor and then the lines, moved up by the number of
/// scrolls, and spaces below. The cursor is at the start of the row behind
/// the last line, or of the last row.
pub open spec fn after_lines(s: Screen, lines: Seq<Seq<char>>) -> Screen {
    let up = scrolls(s.cursor.row, s.height, lines.len());
    Screen {
        grid: Seq::new(
            s.height as nat,
            |j: int|
                if j + up < s.cursor.row {
                    s.grid[j + up]
                } else if j + up - s.cursor.row < lines.len() {
                    padded(lines[j + up - s.cursor.row], s.width)
                } else {
                    blank_row(s.width)
                },
        ),
        cursor: Cursor {
            row: if s.cursor.row + lines.len() <= s.height - 1 {
                (s.cursor.row + lines.len()) as usize
            } else {
                (s.height - 1) as usize
            },
            col: 0,
        },
        ..s
    }
}

/// Lines that end before the right edge, fed to a screen with the cursor at
/// the start of a row and nothing but spaces from there on, each take one
/// row. Once the last row is reached, every further line scrolls the grid
/// by one row, so the screen then shows the last lines above one empty row.
pub proof fn lemma_feed_lines(s: Screen, lines: Seq<Seq<char>>)
    requires
        s.wf(),
        s.cursor.col == 0,
        blank_below(s),
        short_lines(lines, s.width),
    ensures
        feed_lines(s, lines) == after_lines(s, lines),
    decreases lines.len(),
{
    let r = s.cursor.row as int;
    if lines.len() == 0 {
        assert(after_lines(s, lines).grid =~~= s.grid);
    } else {
        let first = lines[0];
        let rest = lines.drop_first();
        lemma_put_all_in_row(s, first);
        let printed = s.put_all(first);
        assert(printed.grid[r] =~= padded(first, s.width));
        let next = printed.line_feed();
        lemma_feed_lines(next, rest);
        let a = after_lines(next, rest);
        let b = after_lines(s, lines);
        assert(a.grid =~= b.grid);
    }
}

/// Whether every character of every line is printed as it is.
pub open spec fn plain_lines(lines: Seq<Seq<char>>) -> bool {
    forall|i: int| 0 <= i < lines.len() ==> plain_text(#[trigger] lines[i])
}

/// The lines as one text, each followed by a line feed.
pub open spec fn lines_text(lines: Seq<Seq<char>>) -> Seq<char>
    decreases lines.len(),
{
    if lines.len() == 0 {
        Seq::empty()
    } else {
        lines[0] + seq!['\n'] + lines_text(lines.drop_first())
    }
}

/// Acting on the tokens of a line prints the line and feeds one line.
pub proof fn lemma_line_tokens(s: Screen, line: Seq<char>)
    ensures
        s.tokens(line_tokens(line)) == s.put_all(line).line_feed(),
{
    let feed = TokenView::ControlChar(ControlChar::LineFeed);
    lemma_tokens_single(s, feed);
    if line.len() > 0 {
        lemma_tokens_single(s, TokenView::Text(line));
        lemma_tokens_single(s.put_all(line), feed);
        assert(line_tokens(line) =~= seq![TokenView::Text(line)] + seq![feed]);
        lemma_tokens_append(s, seq![TokenView::Text(line)], seq![feed]);
    }
}

/// Writing lines of plain text, each followed by a line feed, and then
/// more input, all as one text, is feeding the lines one after the other
/// and then writing the rest.
pub proof fn lemma_write_lines_then(s: Screen, lines: Seq<Seq<char>>, rest: Seq<char>)
    requires
        plain_lines(lines),
    ensures
        s.write(lines_text(lines) + rest) == feed_lines(s, lines).write(rest),
    decreases lines.len(),
{
    if lines.len() > 0 {
        let later = lines.drop_first();
        let tail = lines_text(later) + rest;
        assert(lines_text(lines) + rest =~= lines[0] + seq!['\n'] + tail);
        lemma_tokenize_line(lines[0], tail);
        lemma_tokens_append(s, line_tokens(lines[0]), crate::ansi::parser::tokenize(tail));
        lemma_line_tokens(s, lines[0]);
        lemma_write_lines_then(s.put_all(lines[0]).line_feed(), later, rest);
    }
}

/// Writing lines of plain text, each followed by a line feed, as one text
/// is feeding the lines one after the other.
pub proof fn lemma_write_lines(s: Screen, lines: Seq<Seq<char>>)
    requires
        plain_lines(lines),
    ensures
        s.write(lines_text(lines)) == feed_lines(s, lines),
{
    lemma_write_lines_then(s, lines, Seq::empty());
}

/// Lines of plain text that end before the right edge, written to an empty
/// screen as one text with a line feed behind each: the screen scrolls once
/// for each line from the one that reaches the last row on, and shows the
/// lines that are left, one row each, above the cursor's empty row.
pub proof fn lemma_write_lines_on_blank(width: usize, height: usize, lines: Seq<Seq<char>>)
    requires
        width >= 1,
        height >= 1,
        plain_lines(lines),
        short_lines(lines, width),
    ensures
        Screen::blank(width, height).write(lines_text(lines)) == after_lines(
            Screen::blank(width, height),
            lines,
        ),
{
    lemma_write_lines(Screen::blank(width, height), lines);
    lemma_feed_lines(Screen::blank(width, height), lines);
}

/// Fewer lines than the screen has rows, written to an empty screen, take
/// one row each and nothing scrolls: line `i` stands in row `i`, the rows
/// below hold spaces, and the cursor is at the start of the row behind the
/// last line.
pub proof fn lemma_lines_without_scroll(width: usize, height: usize, lines: Seq<Seq<char>>)
    requires
        width >= 1,
        height >= 1,
        plain_lines(lines),
        short_lines(lines, width),
        lines.len() < height,
    ensures
        scrolls(0, height, lines.len()) == 0,
        Screen::blank(width, height).write(lines_text(lines)).cursor == (Cursor {
            row: lines.len() as usize,
            col: 0,
        }),
        forall|j: int|
            0 <= j < lines.len() ==> #[trigger] Screen::blank(width, height).write(
                lines_text(lines),
            ).grid[j] == padded(lines[j], width),
        forall|j: int|
            lines.len() <= j < height ==> #[trigger] Screen::blank(width, height).write(
                lines_text(lines),
            ).grid[j] == blank_row(width),
{
    lemma_write_lines_on_blank(width, height, lines);
}

/// At least as many lines as the screen has rows, written to an empty
/// screen, scroll the grid once for each line from the one that reaches the
/// last row on: the screen shows the last lines, one fewer than it has
/// rows, above an empty row, and the cursor is at the start of that row.
pub proof fn lemma_lines_with_scroll(width: usize, height: usize, lines: Seq<Seq<char>>)
    requires
        width >= 1,
        height >= 1,
        plain_lines(lines),
        short_lines(lines, width),
        lines.len() >= height,
    ensures
        scrolls(0, height, lines.len()) == lines.len() - height + 1,
        Screen::blank(width, height).write(lines_text(lines)).cursor == (Cursor {
            row: (height - 1) as usize,
            col: 0,
        }),
        forall|j: int|
            0 <= j < height - 1 ==> #[trigger] Screen::blank(width, height).write(
                lines_text(lines),
            ).grid[j] == padded(lines[j + lines.len() - height + 1], width),
        Screen::blank(width, height).write(lines_text(lines)).grid[height - 1] == blank_row(width),
{
    lemma_write_lines_on_blank(width, height, lines);
}

} // verus!
