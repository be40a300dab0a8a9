//! The state of one terminal, and the operations that act on the grid and
//! the cursor together.

use crate::ansi::commands::{AnsiCommand, ClearMode, ControlChar, Token};
use crate::ansi::parser::{
    final_stop, lemma_scan, read_escape_sequence, token_views, AnsiParser, ESCAPE,
};
use crate::buffer::Buffer;
use crate::cursor::Cursor;
use crate::screen::{spaces, tab_distance, Screen, TAB_WIDTH};
use crate::text::to_chars;
use vstd::prelude::*;
use vstd::slice::slice_subrange;

verus! {

/// The grid and the cursor of one terminal, kept together so that they change together.
pub struct TtyState {
    pub buffer: Buffer,
    pub cursor: Cursor,
}

impl View for TtyState {
    type V = Screen;

    /// The screen that the state stands for.
    open spec fn view(&self) -> Screen {
        Screen {
            width: self.buffer.width,
            height: self.buffer.height,
            grid: self.buffer@,
            cursor: self.cursor,
        }
    }
}

impl TtyState {
    /// The state stands for a well-formed screen.
    pub open spec fn wf(&self) -> bool {
        self@.wf()
    }

    /// The state of an empty terminal of the given size.
    pub fn new(width: usize, height: usize) -> (s: TtyState)
        requires
            width >= 1,
            height >= 1,
        ensures
            s.wf(),
            s@ == Screen::blank(width, height),
    {
        TtyState { buffer: Buffer::new(width, height), cursor: Cursor::new() }
    }

    /// Empties the grid and puts the cursor in the upper left corner.
    pub fn clear(&mut self, width: usize, height: usize)
        requires
            old(self).wf(),
            width >= 1,
            height >= 1,
        ensures
            final(self).wf(),
            final(self)@ == old(self)@.clear(),
    {
        self.buffer.clear();
        self.cursor.set_position(0, 0, height, width);
    }

    /// The cell-exact rendering of the grid.
    pub fn get_snapshot(&self) -> (s: String)
        requires
            self.wf(),
        ensures
            s@ == crate::buffer::verbatim(self@.grid),
    {
        self.buffer.get_snapshot()
    }

    /// The canonical rendering of the grid.
    pub fn snapshot(&self) -> (s: String)
        requires
            self.wf(),
        ensures
            s@ == crate::buffer::trimmed(self@.grid),
    {
        self.buffer.snapshot()
    }

    /// The cursor's position as `(row, col)`.
    pub fn get_cursor_position(&self) -> (p: (usize, usize))
        ensures
            p == (self@.cursor.row, self@.cursor.col),
    {
        self.cursor.get_position()
    }

    /// Prints one character at the cursor.
    pub fn put_char(&mut self, ch: char)
        requires
            old(self).wf(),
        ensures
            final(self).wf(),
            final(self)@ == old(self)@.put(ch),
            final(self)@.width == old(self)@.width,
            final(self)@.height == old(self)@.height,
    {
        let width: usize = self.buffer.width;
        let height: usize = self.buffer.height;
        if self.cursor.row < height && self.cursor.col < width {
            self.buffer.set_char(self.cursor.row, self.cursor.col, ch);
            if self.cursor.advance(width, height) {
                self.buffer.scroll_up();
            }
        }
    }

    /// Prints the characters of `text` one after the other.
    pub fn put_text(&mut self, text: &str)
        requires
            old(self).wf(),
        ensures
            final(self).wf(),
            final(self)@ == old(self)@.put_all(text@),
            final(self)@.width == old(self)@.width,
            final(self)@.height == old(self)@.height,
    {
        let chars = to_chars(text);
        let mut i: usize = 0;
        while i < chars.len()
            invariant
                self.wf(),
                self@.width == old(self)@.width,
                self@.height == old(self)@.height,
                chars@ == text@,
                i <= chars@.len(),
                self@ == old(self)@.put_all(chars@.take(i as int)),
            decreases chars@.len() - i,
        {
            self.put_char(chars[i]);
            i = i + 1;
            assert(chars@.take(i as int).drop_last() =~= chars@.take(i - 1));
        }
        assert(chars@.take(i as int) =~= text@);
    }

    /// Moves to the start of the next row, scrolling the grid at the bottom.
    fn line_feed(&mut self)
        requires
            old(self).wf(),
        ensures
            final(self).wf(),
            final(self)@ == old(self)@.line_feed(),
            final(self)@.width == old(self)@.width,
            final(self)@.height == old(self)@.height,
    {
        if self.cursor.newline(self.buffer.height) {
            self.buffer.scroll_up();
        }
    }

    /// Prints spaces up to the next tab stop.
    fn tab(&mut self)
        requires
            old(self).wf(),
        ensures
            final(self).wf(),
            final(self)@ == old(self)@.put_all(spaces(tab_distance(old(self)@.cursor.col))),
            final(self)@.width == old(self)@.width,
            final(self)@.height == old(self)@.height,
    {
        let count: usize = TAB_WIDTH - self.cursor.col % TAB_WIDTH;
        let ghost fill = spaces(count as int);
        let mut i: usize = 0;
        while i < count
            invariant
                self.wf(),
                self@.width == old(self)@.width,
                self@.height == old(self)@.height,
                i <= count,
                fill == spaces(count as int),
                self@ == old(self)@.put_all(fill.take(i as int)),
            decreases count - i,
        {
            self.put_char(' ');
            i = i + 1;
            assert(fill.take(i as int).drop_last() =~= fill.take(i - 1));
        }
        assert(fill.take(i as int) =~= fill);
    }

    /// Acts on a control character.
    pub fn control(&mut self, c: ControlChar)
        requires
            old(self).wf(),
        ensures
            final(self).wf(),
            final(self)@ == old(self)@.control(c),
            final(self)@.width == old(self)@.width,
            final(self)@.height == old(self)@.height,
    {
        match c {
            ControlChar::LineFeed => self.line_feed(),
            ControlChar::CarriageReturn => self.cursor.carriage_return(),
            ControlChar::Backspace => self.cursor.backspace(),
            ControlChar::Tab => self.tab(),
            ControlChar::Bell => {},
            ControlChar::VerticalTab => self.line_feed(),
            ControlChar::FormFeed => {
                self.buffer.clear();
                self.cursor.set_position(0, 0, self.buffer.height, self.buffer.width);
            },
        }
    }

    /// Carries out a command, whatever its parameters.
    pub fn execute_ansi_command(&mut self, command: &AnsiCommand)
        requires
            old(self).wf(),
        ensures
            final(self).wf(),
            final(self)@ == old(self)@.execute(*command),
            final(self)@.width == old(self)@.width,
            final(self)@.height == old(self)@.height,
    {
        let width: usize = self.buffer.width;
        let height: usize = self.buffer.height;
        let row: usize = self.cursor.row;
        let col: usize = self.cursor.col;
        match command {
            AnsiCommand::CursorUp(n) => {
                self.cursor.move_up(*n);
            },
            AnsiCommand::CursorDown(n) => {
                self.cursor.move_down(*n, height);
            },
            AnsiCommand::CursorForward(n) => {
                self.cursor.move_forward(*n, width);
            },
            AnsiCommand::CursorBack(n) => {
                self.cursor.move_back(*n);
            },
            AnsiCommand::CursorPosition { row, col } => {
                self.cursor.set_position(*row, *col, height, width);
            },
            AnsiCommand::ClearScreen(clear_mode) => match clear_mode {
                ClearMode::Entire => {
                    self.buffer.clear();
                    self.cursor.set_position(0, 0, height, width);
                },
                ClearMode::ToBeginning => {
                    self.buffer.clear_from_beginning_to_cursor(row, col);
                },
                ClearMode::ToEnd => {
                    self.buffer.clear_from_cursor_to_end(row, col);
                },
            },
            AnsiCommand::ClearLine(clear_mode) => match clear_mode {
                ClearMode::Entire => {
                    self.buffer.clear_entire_line(row);
                },
                ClearMode::ToBeginning => {
                    self.buffer.clear_line_from_beginning_to_cursor(row, col);
                },
                ClearMode::ToEnd => {
                    self.buffer.clear_line_from_cursor_to_end(row, col);
                },
            },
            AnsiCommand::SetGraphicsRendition => {},
        }
    }

    /// Acts on one token: text is printed, a control is acted on, a command
    /// with parameters in range is carried out, and anything else is ignored.
    pub fn process_token(&mut self, token: Token)
        requires
            old(self).wf(),
        ensures
            final(self).wf(),
            final(self)@ == old(self)@.token(token@),
            final(self)@.width == old(self)@.width,
            final(self)@.height == old(self)@.height,
    {
        match token {
            Token::Text(text) => {
                self.put_text(text.as_str());
            },
            Token::Command(command) => {
                if command.validate().is_ok() {
                    self.execute_ansi_command(&command);
                }
            },
            Token::ControlChar(c) => {
                self.control(c);
            },
            Token::Invalid(_) => {},
        }
    }

    /// Writes `data` to the terminal: the input is split into tokens, and
    /// each token is acted on in turn.
    pub fn write(&mut self, data: &str)
        requires
            old(self).wf(),
        ensures
            final(self).wf(),
            final(self)@ == old(self)@.write(data@),
            final(self)@.width == old(self)@.width,
            final(self)@.height == old(self)@.height,
    {
        match AnsiParser::parse(data) {
            Ok(tokens) => {
                let ghost all = token_views(tokens@);
                for token in it: tokens
                    invariant
                        self.wf(),
                        self@.width == old(self)@.width,
                        self@.height == old(self)@.height,
                        token_views(it.seq()) == all,
                        self@ == old(self)@.tokens(all.take(it.index())),
                {
                    let ghost i = it.index();
                    self.process_token(token);
                    assert(all.take(i + 1).drop_last() =~= all.take(i));
                }
                assert(all.take(all.len() as int) =~= all);
            },
            Err(_) => {
                // The tokenizer gives every input a tokenization, so this
                // arm is never taken; it stands for a tokenizer that refuses.
                self.write_lenient(data);
            },
        }
    }

    /// Writes `data` to the terminal character by character, reading escape
    /// sequences leniently.
    pub fn write_lenient(&mut self, data: &str)
        requires
            old(self).wf(),
        ensures
            final(self).wf(),
            final(self)@ == old(self)@.write_lenient(data@),
            final(self)@.width == old(self)@.width,
            final(self)@.height == old(self)@.height,
    {
        let chars = to_chars(data);
        let len: usize = chars.len();
        let mut i: usize = 0;
        while i < len
            invariant
                self.wf(),
                self@.width == old(self)@.width,
                self@.height == old(self)@.height,
                chars@ == data@,
                len == chars@.len(),
                i <= len,
                self@.write_lenient_from(data@, i as int) == old(self)@.write_lenient(data@),
            decreases len - i,
        {
            let ch: char = chars[i];
            if ch == ESCAPE {
                if i + 1 < len && chars[i + 1] == '[' {
                    let rest = slice_subrange(chars.as_slice(), i + 2, len);
                    proof {
                        lemma_scan(rest@, 0, final_stop());
                    }
                    let (command, taken) = read_escape_sequence(rest);
                    match command {
                        Some(command) => {
                            self.execute_ansi_command(&command);
                        },
                        None => {},
                    }
                    i = i + 2 + taken;
                } else if i + 1 < len {
                    i = i + 2;
                } else {
                    i = i + 1;
                }
            } else if ch == '\r' {
                self.cursor.carriage_return();
                i = i + 1;
            } else if ch == '\n' {
                self.line_feed();
                i = i + 1;
            } else if ch == '\x08' {
                self.cursor.backspace();
                i = i + 1;
            } else {
                self.put_char(ch);
                i = i + 1;
            }
        }
    }
}

} // verus!
