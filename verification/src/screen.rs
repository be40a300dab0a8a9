//! The mathematical model of the terminal: what a screen shows, and which
//! screen each character, control, command and token leaves.

use crate::ansi::commands::{AnsiCommand, ClearMode, ControlChar, TokenView};
use crate::ansi::parser::{
    csi_end, final_stop, lemma_scan, lenient_command, tokenize, ESCAPE,
};
use crate::buffer::{
    blank_grid, cleared, is_grid, region_line, region_line_to_beginning,
    region_line_to_end, region_to_beginning, region_to_end, scrolled_up, with_char,
};
use crate::cursor::Cursor;
use vstd::prelude::*;

verus! {

/// The number of columns between two tab stops.
pub const TAB_WIDTH: usize = 8;

/// What a terminal of a fixed size shows: a grid of characters and the cursor.
pub struct Screen {
    pub width: usize,
    pub height: usize,
    pub grid: Seq<Seq<char>>,
    pub cursor: Cursor,
}

/// `n` spaces.
pub open spec fn spaces(n: int) -> Seq<char> {
    Seq::new(n as nat, |i: int| ' ')
}

/// The number of cells from column `col` to the next tab stop. It is never 0:
/// from a tab stop the next one is a full tab width away.
pub open spec fn tab_distance(col: usize) -> int {
    (col / TAB_WIDTH + 1) * TAB_WIDTH - col
}

impl Screen {
    /// The screen has at least one cell, the grid has the screen's size, and
    /// the cursor is on a cell.
    pub open spec fn wf(self) -> bool {
        &&& self.width >= 1
        &&& self.height >= 1
        &&& is_grid(self.grid, self.width, self.height)
        &&& self.cursor.in_bounds(self.height, self.width)
    }

    /// The empty screen: every cell a space, the cursor in the upper left corner.
    pub open spec fn blank(width: usize, height: usize) -> Screen {
        Screen { width, height, grid: blank_grid(width, height), cursor: Cursor { row: 0, col: 0 } }
    }

    /// The screen with another grid.
    pub open spec fn with_grid(self, grid: Seq<Seq<char>>) -> Screen {
        Screen { grid, ..self }
    }

    /// The screen with the cursor elsewhere.
    pub open spec fn with_cursor(self, cursor: Cursor) -> Screen {
        Screen { cursor, ..self }
    }

    /// The screen emptied: every cell a space, the cursor in the upper left corner.
    pub open spec fn clear(self) -> Screen {
        Screen::blank(self.width, self.height)
    }

    /// The screen scrolled by one row if `scroll` holds, and as it is otherwise.
    pub open spec fn scroll_if(self, scroll: bool) -> Screen {
        if scroll {
            self.with_grid(scrolled_up(self.grid, self.width))
        } else {
            self
        }
    }

    /// One character printed: it replaces the cell under the cursor, and the
    /// cursor steps on, wrapping at the right edge and scrolling the grid at
    /// the bottom. With the cursor off the grid nothing happens.
    pub open spec fn put(self, ch: char) -> Screen {
        if self.cursor.in_bounds(self.height, self.width) {
            self.with_grid(with_char(self.grid, self.cursor.row, self.cursor.col, ch)).with_cursor(
                self.cursor.after_advance(self.width, self.height),
            ).scroll_if(self.cursor.advance_scrolls(self.width, self.height))
        } else {
            self
        }
    }

    /// The characters of `text` printed one after the other.
    pub open spec fn put_all(self, text: Seq<char>) -> Screen
        decreases text.len(),
    {
        if text.len() == 0 {
            self
        } else {
            self.put_all(text.drop_last()).put(text.last())
        }
    }

    /// A line feed: the cursor goes to the start of the next row, and at the
    /// bottom the grid scrolls instead.
    pub open spec fn line_feed(self) -> Screen {
        self.with_cursor(self.cursor.after_newline(self.height)).scroll_if(
            self.cursor.newline_scrolls(self.height),
        )
    }

    /// A control character acted on.
    pub open spec fn control(self, c: ControlChar) -> Screen {
        match c {
            ControlChar::LineFeed => self.line_feed(),
            ControlChar::CarriageReturn => self.with_cursor(
                Cursor { row: self.cursor.row, col: 0 },
            ),
            ControlChar::Backspace => self.with_cursor(self.cursor.after_backspace()),
            ControlChar::Tab => self.put_all(spaces(tab_distance(self.cursor.col))),
            ControlChar::Bell => self,
            ControlChar::VerticalTab => self.line_feed(),
            ControlChar::FormFeed => self.clear(),
        }
    }

    /// A command carried out, whatever its parameters.
    pub open spec fn execute(self, command: AnsiCommand) -> Screen {
        let row = self.cursor.row;
        let col = self.cursor.col;
        match command {
            AnsiCommand::CursorUp(n) => self.with_cursor(self.cursor.moved_up(n)),
            AnsiCommand::CursorDown(n) => self.with_cursor(self.cursor.moved_down(n, self.height)),
            AnsiCommand::CursorForward(n) => self.with_cursor(
                self.cursor.moved_forward(n, self.width),
            ),
            AnsiCommand::CursorBack(n) => self.with_cursor(self.cursor.moved_back(n)),
            AnsiCommand::CursorPosition { row: r, col: c } => self.with_cursor(
                Cursor::positioned(r, c, self.height, self.width),
            ),
            AnsiCommand::ClearScreen(ClearMode::Entire) => self.clear(),
            AnsiCommand::ClearScreen(ClearMode::ToBeginning) => self.with_grid(
                cleared(self.grid, region_to_beginning(row, col)),
            ),
            AnsiCommand::ClearScreen(ClearMode::ToEnd) => self.with_grid(
                cleared(self.grid, region_to_end(row, col)),
            ),
            AnsiCommand::ClearLine(ClearMode::Entire) => self.with_grid(
                cleared(self.grid, region_line(row)),
            ),
            AnsiCommand::ClearLine(ClearMode::ToBeginning) => self.with_grid(
                cleared(self.grid, region_line_to_beginning(row, col)),
            ),
            AnsiCommand::ClearLine(ClearMode::ToEnd) => self.with_grid(
                cleared(self.grid, region_line_to_end(row, col)),
            ),
            AnsiCommand::SetGraphicsRendition => self,
        }
    }

    /// A command as it arrives in the input: carried out if its parameters
    /// are in range, and ignored otherwise.
    pub open spec fn command(self, command: AnsiCommand) -> Screen {
        if command.is_valid() {
            self.execute(command)
        } else {
            self
        }
    }

    /// One token of input acted on.
    pub open spec fn token(self, token: TokenView) -> Screen {
        match token {
            TokenView::Text(text) => self.put_all(text),
            TokenView::Command(command) => self.command(command),
            TokenView::ControlChar(c) => self.control(c),
            TokenView::Invalid(_) => self,
        }
    }

    /// The tokens acted on one after the other.
    pub open spec fn tokens(self, tokens: Seq<TokenView>) -> Screen
        decreases tokens.len(),
    {
        if tokens.len() == 0 {
            self
        } else {
            self.tokens(tokens.drop_last()).token(tokens.last())
        }
    }

    /// The input `data` written to the screen: split into tokens, and each token acted on in turn.
    pub open spec fn write(self, data: Seq<char>) -> Screen {
        self.tokens(tokenize(data))
    }

    /// The input `data` from index `i` on, written character by character
    /// and read leniently. Only the escape character, carriage return, line
    /// feed and backspace are acted on, and every other character is
    /// printed. A CSI sequence is carried out without a look at the range of
    /// its parameters, and parameters that are not numbers count as 0. An
    /// escape character that no bracket follows is dropped together with
    /// the character behind it.
    pub open spec fn write_lenient_from(self, data: Seq<char>, i: int) -> Screen
        decreases data.len() - i,
    {
        if i < 0 || i >= data.len() {
            self
        } else if data[i] == ESCAPE {
            if i + 1 < data.len() && data[i + 1] == '[' {
                let rest = data.skip(i + 2);
                let next = match lenient_command(rest) {
                    Some(command) => self.execute(command),
                    None => self,
                };
                proof {
                    lemma_scan(rest, 0, final_stop());
                }
                next.write_lenient_from(data, i + 2 + csi_end(rest, 0))
            } else if i + 1 < data.len() {
                self.write_lenient_from(data, i + 2)
            } else {
                self
            }
        } else if data[i] == '\r' {
            self.control(ControlChar::CarriageReturn).write_lenient_from(data, i + 1)
        } else if data[i] == '\n' {
            self.control(ControlChar::LineFeed).write_lenient_from(data, i + 1)
        } else if data[i] == '\x08' {
            self.control(ControlChar::Backspace).write_lenient_from(data, i + 1)
        } else {
            self.put(data[i]).write_lenient_from(data, i + 1)
        }
    }

    /// The input `data` written character by character and read leniently.
    pub open spec fn write_lenient(self, data: Seq<char>) -> Screen {
        self.write_lenient_from(data, 0)
    }
}

} // verus!
