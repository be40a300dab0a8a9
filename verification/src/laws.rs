//! What holds of a screen whatever is written to it: the cursor stays on
//! the grid, clearing twice is clearing once, moves stop at the edges, and
//! what the erase and the position sequences do.

use crate::ansi::commands::{
    csi_command, zero_based, AnsiCommand, ClearMode, ControlChar, ParseErrorView, TokenView,
    MAX_POSITION,
};
use crate::ansi::lemmas::{lemma_scan_finds, lemma_tokens_suffix};
use crate::ansi::parser::{
    final_stop, parameters_from, scan, separator_stop, tokenize, tokens_from,
};
use crate::buffer::{blank_grid, is_grid};
use crate::cursor::Cursor;
use crate::screen::Screen;
use crate::text::{decimal, digits_value, lemma_decimal, lemma_decimal_is_read_back};
use vstd::prelude::*;

verus! {

/// Whether two screens have the same size.
pub open spec fn same_size(a: Screen, b: Screen) -> bool {
    a.width == b.width && a.height == b.height
}

/// Printing a character keeps the screen well-formed and of the same size.
pub proof fn lemma_put_keeps_wf(s: Screen, ch: char)
    requires
        s.wf(),
    ensures
        s.put(ch).wf(),
        same_size(s.put(ch), s),
{
}

/// Printing text keeps the screen well-formed and of the same size.
pub proof fn lemma_put_all_keeps_wf(s: Screen, text: Seq<char>)
    requires
        s.wf(),
    ensures
        s.put_all(text).wf(),
        same_size(s.put_all(text), s),
    decreases text.len(),
{
    if text.len() > 0 {
        lemma_put_all_keeps_wf(s, text.drop_last());
        lemma_put_keeps_wf(s.put_all(text.drop_last()), text.last());
    }
}

/// Acting on a control character keeps the screen well-formed and of the same size.
pub proof fn lemma_control_keeps_wf(s: Screen, c: ControlChar)
    requires
        s.wf(),
    ensures
        s.control(c).wf(),
        same_size(s.control(c), s),
{
    if c == ControlChar::Tab {
        lemma_put_all_keeps_wf(s, crate::screen::spaces(crate::screen::tab_distance(s.cursor.col)));
    }
}

/// Carrying out a command keeps the screen well-formed and of the same size,
/// whatever the command's parameters.
pub proof fn lemma_execute_keeps_wf(s: Screen, command: AnsiCommand)
    requires
        s.wf(),
    ensures
        s.execute(command).wf(),
        same_size(s.execute(command), s),
{
}

/// Acting on a token keeps the screen well-formed and of the same size.
pub proof fn lemma_token_keeps_wf(s: Screen, token: TokenView)
    requires
        s.wf(),
    ensures
        s.token(token).wf(),
        same_size(s.token(token), s),
{
    match token {
        TokenView::Text(text) => lemma_put_all_keeps_wf(s, text),
        TokenView::Command(command) => lemma_execute_keeps_wf(s, command),
        TokenView::ControlChar(c) => lemma_control_keeps_wf(s, c),
        TokenView::Invalid(_) => {},
    }
}

/// Acting on any sequence of tokens keeps the screen well-formed and of the same size.
pub proof fn lemma_tokens_keep_wf(s: Screen, tokens: Seq<TokenView>)
    requires
        s.wf(),
    ensures
        s.tokens(tokens).wf(),
        same_size(s.tokens(tokens), s),
    decreases tokens.len(),
{
    if tokens.len() > 0 {
        lemma_tokens_keep_wf(s, tokens.drop_last());
        lemma_token_keeps_wf(s.tokens(tokens.drop_last()), tokens.last());
    }
}

/// Acting on two sequences of tokens one after the other is acting on both as one.
pub proof fn lemma_tokens_append(s: Screen, first: Seq<TokenView>, second: Seq<TokenView>)
    ensures
        s.tokens(first + second) == s.tokens(first).tokens(second),
    decreases second.len(),
{
    if second.len() > 0 {
        lemma_tokens_append(s, first, second.drop_last());
        assert((first + second).drop_last() =~= first + second.drop_last());
    }
}

/// Acting on a single token is acting on the sequence that holds only that token.
pub proof fn lemma_tokens_single(s: Screen, token: TokenView)
    ensures
        s.tokens(seq![token]) == s.token(token),
{
    let single = seq![token];
    assert(s.tokens(single.drop_last()) == s);
}

/// Whatever is written, the grid keeps its size and the cursor stays on a cell.
pub proof fn lemma_write_keeps_wf(s: Screen, data: Seq<char>)
    requires
        s.wf(),
    ensures
        s.write(data).wf(),
        same_size(s.write(data), s),
        s.write(data).cursor.row < s.height,
        s.write(data).cursor.col < s.width,
        is_grid(s.write(data).grid, s.width, s.height),
{
    lemma_tokens_keep_wf(s, tokenize(data));
}

/// Whether a command clears a part of the screen or of a line.
pub open spec fn is_clear(command: AnsiCommand) -> bool {
    command is ClearScreen || command is ClearLine
}

/// A clear command carried out twice in a row leaves the screen as the
/// first time did.
pub proof fn lemma_clear_twice(s: Screen, command: AnsiCommand)
    requires
        s.wf(),
        is_clear(command),
    ensures
        s.command(command).command(command) == s.command(command),
{
    let once = s.command(command);
    let twice = once.command(command);
    assert(twice.grid =~~= once.grid);
}

/// Clearing the entire screen leaves every cell a space and the cursor in
/// the upper left corner, whatever the screen showed before.
pub proof fn lemma_clear_entire(s: Screen)
    ensures
        s.command(AnsiCommand::ClearScreen(ClearMode::Entire)) == Screen::blank(s.width, s.height),
        s.command(AnsiCommand::ClearScreen(ClearMode::Entire)).cursor == (Cursor {
            row: 0,
            col: 0,
        }),
        s.command(AnsiCommand::ClearScreen(ClearMode::Entire)).grid == blank_grid(
            s.width,
            s.height,
        ),
{
}

/// A relative move towards an edge that the cursor is already on changes nothing.
pub proof fn lemma_move_at_edge(s: Screen, n: usize)
    requires
        s.wf(),
    ensures
        s.cursor.row == 0 ==> s.command(AnsiCommand::CursorUp(n)) == s,
        s.cursor.col == 0 ==> s.command(AnsiCommand::CursorBack(n)) == s,
        s.cursor.row == s.height - 1 ==> s.command(AnsiCommand::CursorDown(n)) == s,
        s.cursor.col == s.width - 1 ==> s.command(AnsiCommand::CursorForward(n)) == s,
{
}

/// An absolute move to a row and a column at or beyond the last ones, and
/// within `MAX_POSITION`, puts the cursor in the lower right corner.
pub proof fn lemma_position_saturates(s: Screen, row: usize, col: usize)
    requires
        s.wf(),
        s.height - 1 <= row <= MAX_POSITION,
        s.width - 1 <= col <= MAX_POSITION,
    ensures
        s.command(AnsiCommand::CursorPosition { row, col }).cursor == (Cursor {
            row: (s.height - 1) as usize,
            col: (s.width - 1) as usize,
        }),
        s.command(AnsiCommand::CursorPosition { row, col }).grid == s.grid,
{
}

/// The one-based parameters `r` and `c` of a cursor position sequence name
/// the cell `(r - 1, c - 1)`; beyond the screen, and within `MAX_POSITION`,
/// the cursor ends in the lower right corner.
pub proof fn lemma_position_sequence_saturates(s: Screen, r: usize, c: usize)
    requires
        s.wf(),
        s.height <= r <= MAX_POSITION + 1,
        s.width <= c <= MAX_POSITION + 1,
    ensures
        csi_command('H', seq![r, c]) is Ok,
        s.command(csi_command('H', seq![r, c])->Ok_0).cursor == (Cursor {
            row: (s.height - 1) as usize,
            col: (s.width - 1) as usize,
        }),
{
}

/// The escape sequence that clears the entire screen: the escape character,
/// an opening bracket, the digit 2 and the letter J.
pub open spec fn erase_sequence() -> Seq<char> {
    seq!['\x1b', '[', '2', 'J']
}

/// Input that starts with the erase sequence has the command that clears
/// the entire screen as its first token, and then the tokens of what follows.
pub proof fn lemma_tokenize_erase_then(rest: Seq<char>)
    ensures
        tokenize(erase_sequence() + rest) == seq![
            TokenView::Command(AnsiCommand::ClearScreen(ClearMode::Entire)),
        ] + tokenize(rest),
{
    let s = erase_sequence() + rest;
    let p = s.subrange(2, 3);
    assert(scan(s, 3, final_stop()) == 3);
    assert(scan(p, 1, separator_stop()) == 1);
    assert(p.subrange(0, 1) =~= p);
    assert(digits_value(p.drop_last()) == 0);
    lemma_tokens_suffix(erase_sequence(), rest, 0);
}

/// Writing the erase sequence and then more input, as one text, is writing
/// the rest to the emptied screen.
pub proof fn lemma_write_erase_then(s: Screen, rest: Seq<char>)
    ensures
        s.write(erase_sequence() + rest) == s.clear().write(rest),
{
    let erase = TokenView::Command(AnsiCommand::ClearScreen(ClearMode::Entire));
    lemma_tokenize_erase_then(rest);
    lemma_tokens_append(s, seq![erase], tokenize(rest));
    lemma_tokens_single(s, erase);
}

/// The erase sequence is one token: the command that clears the entire screen.
pub proof fn lemma_erase_sequence_tokens()
    ensures
        tokenize(erase_sequence()) == seq![
            TokenView::Command(AnsiCommand::ClearScreen(ClearMode::Entire)),
        ],
{
    lemma_tokenize_erase_then(Seq::empty());
}

/// Writing the erase sequence leaves every cell a space and the cursor in
/// the upper left corner, whatever the screen showed before.
pub proof fn lemma_erase_sequence(s: Screen)
    ensures
        s.write(erase_sequence()) == Screen::blank(s.width, s.height),
        s.write(erase_sequence()) == s.clear(),
{
    lemma_erase_sequence_tokens();
    lemma_tokens_single(s, TokenView::Command(AnsiCommand::ClearScreen(ClearMode::Entire)));
}

/// The erase sequence as a string literal.
pub proof fn lemma_erase_sequence_literal()
    ensures
        "\x1b[2J"@ == erase_sequence(),
{
    reveal_strlit("\x1b[2J");
}

/// The erase sequence written `n` times, each time by itself.
pub open spec fn erased(s: Screen, n: nat) -> Screen
    decreases n,
{
    if n == 0 {
        s
    } else {
        erased(s, (n - 1) as nat).write(erase_sequence())
    }
}

/// An emptied screen stays as it is, however often the erase sequence is
/// written to it.
pub proof fn lemma_clear_then_erase(s: Screen, n: nat)
    ensures
        erased(s.clear(), n) == s.clear(),
    decreases n,
{
    if n > 0 {
        lemma_clear_then_erase(s, (n - 1) as nat);
        lemma_erase_sequence(s.clear());
    }
}

/// The escape sequence that moves the cursor to row `r` and column `c`,
/// both counted from 1: the escape character, an opening bracket, the two
/// numbers in base ten with a semicolon between them, and the letter H.
pub open spec fn position_sequence(r: usize, c: usize) -> Seq<char> {
    seq!['\x1b', '['] + decimal(r as nat) + seq![';'] + decimal(c as nat) + seq!['H']
}

/// The position sequence is one token: the command that moves the cursor
/// to the cell it names, counted from 0.
pub proof fn lemma_position_sequence_tokens(r: usize, c: usize)
    ensures
        tokenize(position_sequence(r, c)) == seq![
            TokenView::Command(
                AnsiCommand::CursorPosition { row: zero_based(r), col: zero_based(c) },
            ),
        ],
{
    let dr = decimal(r as nat);
    let dc = decimal(c as nat);
    let s = position_sequence(r, c);
    let p = dr + seq![';'] + dc;
    let n = p.len() as int;
    let m = dr.len() as int;
    lemma_decimal(r as nat);
    lemma_decimal(c as nat);
    lemma_decimal_is_read_back(r);
    lemma_decimal_is_read_back(c);
    lemma_scan_finds(s, 2, 2 + n, final_stop());
    assert(s.subrange(2, 2 + n) =~= p);
    lemma_scan_finds(p, 0, m, separator_stop());
    assert(p.subrange(0, m) =~= dr);
    lemma_scan_finds(p, m + 1, n, separator_stop());
    assert(p.subrange(m + 1, n) =~= dc);
    assert(parameters_from(p, m + 1) == Ok::<Seq<usize>, ParseErrorView>(seq![c]));
    assert(tokens_from(s, s.len() as int) =~= Seq::<TokenView>::empty());
}

/// Writing the position sequence for a row and a column beyond the screen,
/// each no more than one above `MAX_POSITION`, puts the cursor in the lower
/// right corner and leaves the grid as it is.
pub proof fn lemma_position_sequence(s: Screen, r: usize, c: usize)
    requires
        s.wf(),
        s.height <= r <= MAX_POSITION + 1,
        s.width <= c <= MAX_POSITION + 1,
    ensures
        s.write(position_sequence(r, c)).cursor == (Cursor {
            row: (s.height - 1) as usize,
            col: (s.width - 1) as usize,
        }),
        s.write(position_sequence(r, c)).grid == s.grid,
{
    lemma_position_sequence_tokens(r, c);
    lemma_tokens_single(
        s,
        TokenView::Command(AnsiCommand::CursorPosition { row: zero_based(r), col: zero_based(c) }),
    );
}

} // verus!
