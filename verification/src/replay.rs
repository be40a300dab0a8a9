//! A grid comes back from its canonical rendering when the rendering is
//! written to a screen of the same size.

use crate::ansi::commands::TokenView;
use crate::ansi::lemmas::{lemma_scan_finds, plain_text};
use crate::ansi::parser::{is_plain, text_stop, tokenize, tokens_from};
use crate::buffer::{
    blank_row, content_len, content_rows, is_grid, joined_rows, trimmed, trimmed_row,
};
use crate::laws::{erase_sequence, lemma_tokens_single, lemma_write_erase_then};
use crate::lines::{
    after_lines, lemma_feed_lines, lemma_put_all_in_row, lemma_write_lines,
    lemma_write_lines_then, lines_text, padded, plain_lines, short_lines,
};
use crate::screen::Screen;
use vstd::prelude::*;

verus! {

/// Plain text is one token of text, and no text is no token.
pub proof fn lemma_tokenize_plain(text: Seq<char>)
    requires
        plain_text(text),
    ensures
        tokenize(text) == if text.len() > 0 {
            seq![TokenView::Text(text)]
        } else {
            Seq::empty()
        },
{
    if text.len() > 0 {
        let n = text.len() as int;
        lemma_scan_finds(text, 1, n, text_stop());
        assert(text.subrange(0, n) =~= text);
        assert(tokens_from(text, n) =~= Seq::<TokenView>::empty());
    }
}

/// Writing plain text is printing its characters.
pub proof fn lemma_write_plain(s: Screen, text: Seq<char>)
    requires
        plain_text(text),
    ensures
        s.write(text) == s.put_all(text),
{
    lemma_tokenize_plain(text);
    if text.len() > 0 {
        lemma_tokens_single(s, TokenView::Text(text));
    }
}

/// `m` line feeds.
pub open spec fn line_feeds(m: nat) -> Seq<char> {
    Seq::new(m, |i: int| '\n')
}

/// `m` empty lines.
pub open spec fn empty_lines(m: nat) -> Seq<Seq<char>> {
    Seq::new(m, |i: int| Seq::<char>::empty())
}

/// The text of two sequences of lines, one behind the other, is the text
/// of the first followed by the text of the second.
pub proof fn lemma_lines_text_append(first: Seq<Seq<char>>, second: Seq<Seq<char>>)
    ensures
        lines_text(first + second) == lines_text(first) + lines_text(second),
    decreases first.len(),
{
    if first.len() > 0 {
        lemma_lines_text_append(first.drop_first(), second);
        assert((first + second).drop_first() =~= first.drop_first() + second);
    }
}

/// Line feeds are the text of empty lines.
pub proof fn lemma_line_feeds(m: nat)
    ensures
        lines_text(empty_lines(m)) == line_feeds(m),
    decreases m,
{
    if m > 0 {
        lemma_line_feeds((m - 1) as nat);
        assert(empty_lines(m).drop_first() =~= empty_lines((m - 1) as nat));
    }
}

/// Behind its content a row holds only spaces.
pub proof fn lemma_content_len(row: Seq<char>)
    ensures
        content_len(row) <= row.len(),
        forall|j: int| content_len(row) <= j < row.len() ==> #[trigger] row[j] == ' ',
    decreases row.len(),
{
    if row.len() > 0 && row.last() == ' ' {
        lemma_content_len(row.drop_last());
        assert forall|j: int| content_len(row) <= j < row.len() implies #[trigger] row[j]
            == ' ' by {
            if j < row.len() - 1 {
                assert(row.drop_last()[j] == ' ');
            }
        }
    }
}

/// A row is its content followed by spaces.
pub proof fn lemma_padded_trimmed(row: Seq<char>, width: usize)
    requires
        row.len() == width,
    ensures
        padded(trimmed_row(row), width) == row,
{
    lemma_content_len(row);
}

/// Behind the rows with content every row holds only spaces.
pub proof fn lemma_content_rows(g: Seq<Seq<char>>)
    ensures
        content_rows(g) <= g.len(),
        forall|i: int| content_rows(g) <= i < g.len() ==> content_len(#[trigger] g[i]) == 0,
    decreases g.len(),
{
    if g.len() > 0 && content_len(g.last()) == 0 {
        lemma_content_rows(g.drop_last());
        assert forall|i: int| content_rows(g) <= i < g.len() implies content_len(#[trigger] g[i])
            == 0 by {
            if i < g.len() - 1 {
                assert(g.drop_last()[i] == g[i]);
            }
        }
    }
}

/// The first `k` rows of the canonical rendering, and a line feed, are the
/// text of the first `k` lines, where line `i` is row `i` without its
/// trailing spaces.
pub proof fn lemma_joined_rows(g: Seq<Seq<char>>, lines: Seq<Seq<char>>, k: int)
    requires
        1 <= k <= lines.len(),
        forall|i: int| 0 <= i < k ==> #[trigger] lines[i] == trimmed_row(g[i]),
    ensures
        joined_rows(g, k) + seq!['\n'] == lines_text(lines.take(k)),
    decreases k,
{
    let last = seq![lines[k - 1]];
    assert(lines_text(last.drop_first()) =~= Seq::<char>::empty());
    assert(lines.take(k) =~= lines.take(k - 1) + last);
    lemma_lines_text_append(lines.take(k - 1), last);
    if k > 1 {
        lemma_joined_rows(g, lines, k - 1);
    }
}

/// Whether every cell of the grid holds a character that is printed as it is.
pub open spec fn plain_grid(g: Seq<Seq<char>>) -> bool {
    forall|i: int, j: int| 0 <= i < g.len() && 0 <= j < g[i].len() ==> is_plain(#[trigger] g[i][j])
}

/// Whether every row's content ends before the last column.
pub open spec fn rows_end_early(g: Seq<Seq<char>>, width: usize) -> bool {
    forall|i: int| 0 <= i < g.len() ==> content_len(#[trigger] g[i]) < width
}

/// The text that shows a grid again: the erase sequence, the grid's
/// canonical rendering, and `m` line feeds.
pub open spec fn replay(g: Seq<Seq<char>>, m: nat) -> Seq<char> {
    erase_sequence() + trimmed(g) + line_feeds(m)
}

/// The rows of `g` with content, each without its trailing spaces.
pub open spec fn content_lines(g: Seq<Seq<char>>) -> Seq<Seq<char>> {
    Seq::new(content_rows(g), |i: int| trimmed_row(g[i]))
}

/// The rows with content, as lines, are plain and end before the right edge.
proof fn lemma_content_lines(g: Seq<Seq<char>>, width: usize, height: usize)
    requires
        is_grid(g, width, height),
        plain_grid(g),
        rows_end_early(g, width),
    ensures
        content_lines(g).len() == content_rows(g) <= height,
        plain_lines(content_lines(g)),
        short_lines(content_lines(g), width),
{
    lemma_content_rows(g);
}

/// The canonical rendering of a grid whose cells are plain and whose rows
/// end before the last column, written to an empty screen of the grid's
/// size and followed by no more line feeds than rows are left, shows the grid again.
proof fn lemma_rendering_on_blank(g: Seq<Seq<char>>, width: usize, height: usize, m: nat)
    requires
        width >= 1,
        height >= 1,
        is_grid(g, width, height),
        plain_grid(g),
        rows_end_early(g, width),
        content_rows(g) + m <= height,
    ensures
        Screen::blank(width, height).write(trimmed(g) + line_feeds(m)).grid == g,
{
    let blank = Screen::blank(width, height);
    let k = content_rows(g);
    let lines = content_lines(g);
    let text = trimmed(g) + line_feeds(m);
    lemma_content_lines(g, width, height);
    lemma_content_rows(g);
    assert forall|i: int| k <= i < height implies #[trigger] g[i] == blank_row(width) by {
        lemma_content_len(g[i]);
    }
    assert forall|i: int| 0 <= i < k implies padded(#[trigger] lines[i], width) == g[i] by {
        lemma_padded_trimmed(g[i], width);
    }
    if k == 0 {
        let fed = empty_lines(m);
        lemma_line_feeds(m);
        lemma_write_lines(blank, fed);
        lemma_feed_lines(blank, fed);
        let shown = after_lines(blank, fed);
        assert(forall|j: int| 0 <= j < height ==> #[trigger] shown.grid[j] == g[j]);
    } else if m == 0 {
        let front = lines.take(k - 1);
        let last = lines[k - 1];
        lemma_joined_rows(g, lines, k as int);
        assert(lines.take(k as int) =~= lines);
        assert(lines =~= front + seq![last]);
        lemma_lines_text_append(front, seq![last]);
        assert(lines_text(seq![last]) =~= last + seq!['\n']) by {
            let single = seq![last];
            assert(lines_text(single.drop_first()) =~= Seq::<char>::empty());
        }
        assert(text =~= lines_text(front) + last) by {
            let both = trimmed(g) + seq!['\n'];
            assert(both.drop_last() =~= trimmed(g));
        }
        lemma_write_lines_then(blank, front, last);
        lemma_feed_lines(blank, front);
        let fed = after_lines(blank, front);
        lemma_write_plain(fed, last);
        lemma_put_all_in_row(fed, last);
        let shown = fed.put_all(last);
        assert(forall|j: int| 0 <= j < height ==> #[trigger] shown.grid[j] == g[j]);
    } else {
        let more = empty_lines((m - 1) as nat);
        let fed = lines + more;
        lemma_joined_rows(g, lines, k as int);
        assert(lines.take(k as int) =~= lines);
        lemma_line_feeds((m - 1) as nat);
        lemma_lines_text_append(lines, more);
        assert(text =~= lines_text(fed));
        lemma_write_lines(blank, fed);
        lemma_feed_lines(blank, fed);
        let shown = after_lines(blank, fed);
        assert(forall|j: int| 0 <= j < height ==> #[trigger] shown.grid[j] == g[j]);
    }
}

/// A grid whose cells are plain and whose rows end before the last column
/// comes back from its canonical rendering: the erase sequence, the
/// rendering, and no more line feeds than rows are left below the content,
/// written to any screen of the grid's size, show the grid again, and so
/// give the same rendering.
pub proof fn lemma_replay(s: Screen, g: Seq<Seq<char>>, m: nat)
    requires
        s.wf(),
        is_grid(g, s.width, s.height),
        plain_grid(g),
        rows_end_early(g, s.width),
        content_rows(g) + m <= s.height,
    ensures
        s.write(replay(g, m)).grid == g,
        trimmed(s.write(replay(g, m)).grid) == trimmed(g),
{
    let rest = trimmed(g) + line_feeds(m);
    assert(replay(g, m) =~= erase_sequence() + rest);
    lemma_write_erase_then(s, rest);
    lemma_rendering_on_blank(g, s.width, s.height, m);
}

} // verus!
