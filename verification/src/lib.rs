//! A headless terminal: a grid of characters and a cursor of a fixed size
//! that act on plain text, control characters and a small set of CSI escape
//! sequences, and render what they show as text.
//!
//! The behaviour is stated over a mathematical model, [`screen::Screen`]:
//! every operation of the terminal says which screen it leaves, and the
//! modules `laws`, `lines`, `replay` and `splitting` prove what holds of the
//! model whatever is written.

use vstd::prelude::*;

pub mod ansi;
pub mod buffer;
pub mod cursor;
pub mod errors;
pub mod laws;
pub mod lines;
pub mod replay;
pub mod screen;
pub mod splitting;
pub mod state;
pub mod text;

use ansi::{AnsiCommand, Token};
use buffer::{trimmed, verbatim};
use errors::{VirtualTtyError, VirtualTtyErrorView};
use screen::Screen;
use state::TtyState;
use text::{decode_lossy, utf8_lossy};
use vstd::utf8::{decode_utf8, valid_utf8};

verus! {

/// A terminal of a fixed size: its grid, its cursor, and what acts on them.
pub struct VirtualTty {
    state: TtyState,
    width: usize,
    height: usize,
}

/// The sink for a program's standard output.
pub struct VirtualTtyStdout {
    width: usize,
    height: usize,
}

/// The sink for a program's standard error.
pub struct VirtualTtyStderr {
    width: usize,
    height: usize,
}

/// A terminal together with its two sinks. Both sinks write to the one
/// screen: they share its grid and its cursor.
pub struct VirtualTtyStreams {
    pub stdout: VirtualTtyStdout,
    pub stderr: VirtualTtyStderr,
    tty: VirtualTty,
}

impl View for VirtualTty {
    type V = Screen;

    /// The screen that the terminal shows.
    closed spec fn view(&self) -> Screen {
        self.state@
    }
}

impl View for VirtualTtyStreams {
    type V = Screen;

    /// The screen that the terminal shows.
    closed spec fn view(&self) -> Screen {
        self.tty@
    }
}

/// The message of the error for a terminal without cells.
pub open spec fn empty_size_message() -> Seq<char> {
    "width and height must be at least 1"@
}

impl VirtualTty {
    /// The terminal shows a well-formed screen of the size it was made with.
    pub closed spec fn wf(&self) -> bool {
        &&& self.state.wf()
        &&& self.state.buffer.width == self.width
        &&& self.state.buffer.height == self.height
    }

    /// A well-formed terminal shows a well-formed screen: the grid has the
    /// terminal's size and the cursor is on a cell.
    pub proof fn lemma_wf(&self)
        requires
            self.wf(),
        ensures
            self@.wf(),
    {
    }

    /// An empty terminal of `width` columns and `height` rows, with its two sinks.
    pub fn new(width: usize, height: usize) -> (streams: VirtualTtyStreams)
        requires
            width >= 1,
            height >= 1,
        ensures
            streams.wf(),
            streams@ == Screen::blank(width, height),
    {
        let tty = VirtualTty { state: TtyState::new(width, height), width, height };
        VirtualTtyStreams {
            stdout: VirtualTtyStdout { width, height },
            stderr: VirtualTtyStderr { width, height },
            tty,
        }
    }

    /// An empty terminal of `width` columns and `height` rows, or an error
    /// for a size without cells.
    pub fn try_new(width: usize, height: usize) -> (r: Result<VirtualTtyStreams, VirtualTtyError>)
        ensures
            r is Ok <==> width >= 1 && height >= 1,
            r matches Ok(streams) ==> streams.wf() && streams@ == Screen::blank(width, height),
            r matches Err(e) ==> e@ == VirtualTtyErrorView::InvalidParameter(empty_size_message()),
    {
        if width >= 1 && height >= 1 {
            Ok(VirtualTty::new(width, height))
        } else {
            Err(VirtualTtyError::InvalidParameter("width and height must be at least 1".to_owned()))
        }
    }

    /// The number of columns.
    pub fn get_width(&self) -> (w: usize)
        requires
            self.wf(),
        ensures
            w == self@.width,
    {
        self.width
    }

    /// The number of rows.
    pub fn get_height(&self) -> (h: usize)
        requires
            self.wf(),
        ensures
            h == self@.height,
    {
        self.height
    }

    /// The size as `(width, height)`.
    pub fn get_size(&self) -> (size: (usize, usize))
        requires
            self.wf(),
        ensures
            size == (self@.width, self@.height),
    {
        (self.width, self.height)
    }

    /// The cell-exact rendering of the screen: a line break, then every row
    /// in full, each followed by a backslash, the letter n, and a line break.
    pub fn get_snapshot(&self) -> (s: String)
        requires
            self.wf(),
        ensures
            s@ == verbatim(self@.grid),
    {
        self.state.get_snapshot()
    }

    /// The canonical rendering of the screen: the rows joined by line breaks,
    /// without trailing spaces in any row and without trailing rows of spaces.
    pub fn snapshot(&self) -> (s: String)
        requires
            self.wf(),
        ensures
            s@ == trimmed(self@.grid),
    {
        self.state.snapshot()
    }

    /// Empties the screen and puts the cursor in the upper left corner.
    pub fn clear(&mut self)
        requires
            old(self).wf(),
        ensures
            final(self).wf(),
            final(self)@ == old(self)@.clear(),
    {
        self.state.clear(self.width, self.height);
    }

    /// The cursor's position as `(row, col)`; it is always on the screen.
    pub fn get_cursor_position(&self) -> (p: (usize, usize))
        requires
            self.wf(),
        ensures
            p == (self@.cursor.row, self@.cursor.col),
            p.0 < self@.height,
            p.1 < self@.width,
    {
        self.state.get_cursor_position()
    }

    /// Acts on one token of input.
    pub fn process_token(&mut self, token: Token)
        requires
            old(self).wf(),
        ensures
            final(self).wf(),
            final(self)@ == old(self)@.token(token@),
            final(self)@.width == old(self)@.width,
            final(self)@.height == old(self)@.height,
    {
        self.state.process_token(token);
    }

    /// Carries out a command, whatever its parameters.
    pub fn execute_ansi_command(&mut self, command: &AnsiCommand)
        requires
            old(self).wf(),
        ensures
            final(self).wf(),
            final(self)@ == old(self)@.execute(*command),
    {
        self.state.execute_ansi_command(command);
    }

    /// Writes text to the terminal.
    fn write(&mut self, data: &str)
        requires
            old(self).wf(),
        ensures
            final(self).wf(),
            final(self)@ == old(self)@.write(data@),
            final(self)@.width == old(self)@.width,
            final(self)@.height == old(self)@.height,
    {
        self.state.write(data);
    }
}

impl VirtualTtyStdout {
    /// The size of the terminal that the sink belongs to, as `(width, height)`.
    pub closed spec fn size(&self) -> (usize, usize) {
        (self.width, self.height)
    }

    /// Whether `state` is the state of a terminal of the sink's size.
    pub open spec fn fits(&self, state: &TtyState) -> bool {
        state.wf() && (state@.width, state@.height) == self.size()
    }

    /// Writes bytes to the terminal: they are decoded as UTF-8, with a
    /// replacement character for what is not, and the text is written. All
    /// bytes are taken.
    fn write(&mut self, buf: &[u8], state: &mut TtyState) -> (n: usize)
        requires
            old(self).fits(old(state)),
        ensures
            *final(self) == *old(self),
            final(self).fits(final(state)),
            final(state)@ == old(state)@.write(utf8_lossy(buf@)),
            valid_utf8(buf@) ==> final(state)@ == old(state)@.write(decode_utf8(buf@)),
            n == buf@.len(),
    {
        let data = decode_lossy(buf);
        self.write_internal(data.as_str(), state);
        buf.len()
    }

    /// Writes text to the terminal.
    fn write_internal(&mut self, data: &str, state: &mut TtyState)
        requires
            old(self).fits(old(state)),
        ensures
            *final(self) == *old(self),
            final(self).fits(final(state)),
            final(state)@ == old(state)@.write(data@),
    {
        state.write(data);
    }
}

impl VirtualTtyStderr {
    /// The size of the terminal that the sink belongs to, as `(width, height)`.
    pub closed spec fn size(&self) -> (usize, usize) {
        (self.width, self.height)
    }

    /// Whether `state` is the state of a terminal of the sink's size.
    pub open spec fn fits(&self, state: &TtyState) -> bool {
        state.wf() && (state@.width, state@.height) == self.size()
    }

    /// Writes bytes to the terminal: they are decoded as UTF-8, with a
    /// replacement character for what is not, and the text is written. All
    /// bytes are taken.
    fn write(&mut self, buf: &[u8], state: &mut TtyState) -> (n: usize)
        requires
            old(self).fits(old(state)),
        ensures
            *final(self) == *old(self),
            final(self).fits(final(state)),
            final(state)@ == old(state)@.write(utf8_lossy(buf@)),
            valid_utf8(buf@) ==> final(state)@ == old(state)@.write(decode_utf8(buf@)),
            n == buf@.len(),
    {
        let data = decode_lossy(buf);
        self.write_internal(data.as_str(), state);
        buf.len()
    }

    /// Writes text to the terminal.
    fn write_internal(&mut self, data: &str, state: &mut TtyState)
        requires
            old(self).fits(old(state)),
        ensures
            *final(self) == *old(self),
            final(self).fits(final(state)),
            final(state)@ == old(state)@.write(data@),
    {
        state.write(data);
    }
}

impl VirtualTtyStreams {
    /// The terminal is well-formed and both sinks belong to it.
    pub closed spec fn wf(&self) -> bool {
        &&& self.tty.wf()
        &&& self.stdout.size() == (self.tty.width, self.tty.height)
        &&& self.stderr.size() == (self.tty.width, self.tty.height)
    }

    /// A well-formed terminal shows a well-formed screen: the grid has the
    /// terminal's size and the cursor is on a cell.
    pub proof fn lemma_wf(&self)
        requires
            self.wf(),
        ensures
            self@.wf(),
    {
    }

    /// The number of columns.
    pub fn get_width(&self) -> (w: usize)
        requires
            self.wf(),
        ensures
            w == self@.width,
    {
        self.tty.get_width()
    }

    /// The number of rows.
    pub fn get_height(&self) -> (h: usize)
        requires
            self.wf(),
        ensures
            h == self@.height,
    {
        self.tty.get_height()
    }

    /// The size as `(width, height)`.
    pub fn get_size(&self) -> (size: (usize, usize))
        requires
            self.wf(),
        ensures
            size == (self@.width, self@.height),
    {
        self.tty.get_size()
    }

    /// The cell-exact rendering of the screen: a line break, then every row
    /// in full, each followed by a backslash, the letter n, and a line break.
    pub fn get_snapshot(&self) -> (s: String)
        requires
            self.wf(),
        ensures
            s@ == verbatim(self@.grid),
    {
        self.tty.get_snapshot()
    }

    /// The canonical rendering of the screen: the rows joined by line breaks,
    /// without trailing spaces in any row and without trailing rows of spaces.
    pub fn snapshot(&self) -> (s: String)
        requires
            self.wf(),
        ensures
            s@ == trimmed(self@.grid),
    {
        self.tty.snapshot()
    }

    /// Empties the screen and puts the cursor in the upper left corner.
    pub fn clear(&mut self)
        requires
            old(self).wf(),
        ensures
            final(self).wf(),
            final(self)@ == old(self)@.clear(),
    {
        self.tty.clear()
    }

    /// The cursor's position as `(row, col)`; it is always on the screen.
    pub fn get_cursor_position(&self) -> (p: (usize, usize))
        requires
            self.wf(),
        ensures
            p == (self@.cursor.row, self@.cursor.col),
            p.0 < self@.height,
            p.1 < self@.width,
    {
        self.tty.get_cursor_position()
    }

    /// Types `input` into the terminal; it is written to the screen as output is.
    pub fn send_input(&mut self, input: &str)
        requires
            old(self).wf(),
        ensures
            final(self).wf(),
            final(self)@ == old(self)@.write(input@),
            final(self)@.width == old(self)@.width,
            final(self)@.height == old(self)@.height,
    {
        self.tty.write(input);
    }

    /// Writes text to the screen through the standard output sink.
    pub fn stdout_write(&mut self, data: &str)
        requires
            old(self).wf(),
        ensures
            final(self).wf(),
            final(self)@ == old(self)@.write(data@),
            final(self)@.width == old(self)@.width,
            final(self)@.height == old(self)@.height,
    {
        self.stdout.write_internal(data, &mut self.tty.state);
    }

    /// Writes text to the screen through the standard error sink.
    pub fn stderr_write(&mut self, data: &str)
        requires
            old(self).wf(),
        ensures
            final(self).wf(),
            final(self)@ == old(self)@.write(data@),
            final(self)@.width == old(self)@.width,
            final(self)@.height == old(self)@.height,
    {
        self.stderr.write_internal(data, &mut self.tty.state);
    }

    /// Writes bytes to the screen through the standard output sink, and
    /// returns how many were taken: all of them. The bytes are decoded as
    /// UTF-8, with a replacement character for what is not; valid UTF-8 is
    /// written as the text that it encodes.
    pub fn write_stdout(&mut self, buf: &[u8]) -> (n: usize)
        requires
            old(self).wf(),
        ensures
            final(self).wf(),
            final(self)@ == old(self)@.write(utf8_lossy(buf@)),
            valid_utf8(buf@) ==> final(self)@ == old(self)@.write(decode_utf8(buf@)),
            final(self)@.width == old(self)@.width,
            final(self)@.height == old(self)@.height,
            n == buf@.len(),
    {
        self.stdout.write(buf, &mut self.tty.state)
    }

    /// Writes bytes to the screen through the standard error sink, and
    /// returns how many were taken: all of them. The bytes are decoded as
    /// UTF-8, with a replacement character for what is not; valid UTF-8 is
    /// written as the text that it encodes.
    pub fn write_stderr(&mut self, buf: &[u8]) -> (n: usize)
        requires
            old(self).wf(),
        ensures
            final(self).wf(),
            final(self)@ == old(self)@.write(utf8_lossy(buf@)),
            valid_utf8(buf@) ==> final(self)@ == old(self)@.write(decode_utf8(buf@)),
            final(self)@.width == old(self)@.width,
            final(self)@.height == old(self)@.height,
            n == buf@.len(),
    {
        self.stderr.write(buf, &mut self.tty.state)
    }
}

} // verus!
