//! The tokens of terminal input, the recognized CSI commands, and what the
//! final character and the parameters of a CSI sequence select.

use crate::text::{decimal, push_decimal};
use vstd::prelude::*;

verus! {

/// Which part of the screen or of a line a clear command blanks.
#[derive(Debug, Clone, Copy, PartialEq, Eq, Structural)]
pub enum ClearMode {
    ToEnd,
    ToBeginning,
    Entire,
}

/// A recognized CSI command. Cursor positions are zero-based.
#[derive(Debug, Clone, Copy, PartialEq, Eq, Structural)]
pub enum AnsiCommand {
    CursorUp(usize),
    CursorDown(usize),
    CursorForward(usize),
    CursorBack(usize),
    CursorPosition { row: usize, col: usize },
    ClearScreen(ClearMode),
    ClearLine(ClearMode),
    SetGraphicsRendition,
}

/// A control character that the terminal acts on.
#[derive(Debug, Clone, Copy, PartialEq, Eq, Structural)]
pub enum ControlChar {
    LineFeed,
    CarriageReturn,
    Backspace,
    Tab,
    Bell,
    VerticalTab,
    FormFeed,
}

/// One unit of terminal input.
#[derive(Debug, Clone, PartialEq)]
pub enum Token {
    /// A run of printable text.
    Text(String),
    /// A recognized CSI command.
    Command(AnsiCommand),
    /// A control character.
    ControlChar(ControlChar),
    /// A malformed or unrecognized escape sequence, with the reason.
    Invalid(String),
}

/// Why an escape sequence was not understood.
#[derive(Debug, Clone, PartialEq)]
pub enum ParseError {
    InvalidEscapeSequence(String),
    InvalidParameter(String),
    InvalidParameterCount { expected: usize, actual: usize },
    InvalidParameterRange { param: String, min: usize, max: usize },
    UnexpectedEndOfInput,
    InvalidCharacter(char),
}

/// A token with its strings as character sequences.
pub enum TokenView {
    Text(Seq<char>),
    Command(AnsiCommand),
    ControlChar(ControlChar),
    Invalid(Seq<char>),
}

/// A parse error with its strings as character sequences.
pub enum ParseErrorView {
    InvalidEscapeSequence(Seq<char>),
    InvalidParameter(Seq<char>),
    InvalidParameterCount { expected: usize, actual: usize },
    InvalidParameterRange { param: Seq<char>, min: usize, max: usize },
    UnexpectedEndOfInput,
    InvalidCharacter(char),
}

impl View for Token {
    type V = TokenView;

    open spec fn view(&self) -> TokenView {
        match *self {
            Token::Text(s) => TokenView::Text(s@),
            Token::Command(c) => TokenView::Command(c),
            Token::ControlChar(c) => TokenView::ControlChar(c),
            Token::Invalid(s) => TokenView::Invalid(s@),
        }
    }
}

impl View for ParseError {
    type V = ParseErrorView;

    open spec fn view(&self) -> ParseErrorView {
        match *self {
            ParseError::InvalidEscapeSequence(s) => ParseErrorView::InvalidEscapeSequence(s@),
            ParseError::InvalidParameter(s) => ParseErrorView::InvalidParameter(s@),
            ParseError::InvalidParameterCount { expected, actual } => {
                ParseErrorView::InvalidParameterCount { expected, actual }
            },
            ParseError::InvalidParameterRange { param, min, max } => {
                ParseErrorView::InvalidParameterRange { param: param@, min, max }
            },
            ParseError::UnexpectedEndOfInput => ParseErrorView::UnexpectedEndOfInput,
            ParseError::InvalidCharacter(c) => ParseErrorView::InvalidCharacter(c),
        }
    }
}

/// A result with its error as a view.
pub open spec fn result_view<T>(r: Result<T, ParseError>) -> Result<T, ParseErrorView> {
    match r {
        Ok(v) => Ok(v),
        Err(e) => Err(e@),
    }
}

impl ParseErrorView {
    /// The error as a sentence for a human reader.
    pub open spec fn message(self) -> Seq<char> {
        match self {
            ParseErrorView::InvalidEscapeSequence(s) => "Invalid escape sequence: "@ + s,
            ParseErrorView::InvalidParameter(s) => "Invalid parameter: "@ + s,
            ParseErrorView::InvalidParameterCount { expected, actual } => {
                "Invalid parameter count: expected "@ + decimal(expected as nat) + ", got "@
                    + decimal(actual as nat)
            },
            ParseErrorView::InvalidParameterRange { param, min, max } => {
                "Parameter '"@ + param + "' out of range: must be between "@ + decimal(min as nat)
                    + " and "@ + decimal(max as nat)
            },
            ParseErrorView::UnexpectedEndOfInput => "Unexpected end of input"@,
            ParseErrorView::InvalidCharacter(c) => "Invalid character: '"@.push(c) + "'"@,
        }
    }
}

impl ParseError {
    /// The error as a sentence for a human reader.
    pub fn message(&self) -> (s: String)
        ensures
            s@ == self@.message(),
    {
        match self {
            ParseError::InvalidEscapeSequence(seq) => {
                let mut s = "Invalid escape sequence: ".to_owned();
                s.append(seq.as_str());
                s
            },
            ParseError::InvalidParameter(param) => {
                let mut s = "Invalid parameter: ".to_owned();
                s.append(param.as_str());
                s
            },
            ParseError::InvalidParameterCount { expected, actual } => {
                let mut s = "Invalid parameter count: expected ".to_owned();
                push_decimal(&mut s, *expected);
                s.append(", got ");
                push_decimal(&mut s, *actual);
                s
            },
            ParseError::InvalidParameterRange { param, min, max } => {
                let mut s = "Parameter '".to_owned();
                s.append(param.as_str());
                s.append("' out of range: must be between ");
                push_decimal(&mut s, *min);
                s.append(" and ");
                push_decimal(&mut s, *max);
                s
            },
            ParseError::UnexpectedEndOfInput => "Unexpected end of input".to_owned(),
            ParseError::InvalidCharacter(ch) => {
                let mut s = "Invalid character: '".to_owned();
                s.push(*ch);
                s.append("'");
                s
            },
        }
    }
}

/// The first parameter, or `default` when there is none.
pub open spec fn first_param(params: Seq<usize>, default: usize) -> usize {
    if params.len() > 0 {
        params[0]
    } else {
        default
    }
}

/// The second parameter, or `default` when there is none.
pub open spec fn second_param(params: Seq<usize>, default: usize) -> usize {
    if params.len() > 1 {
        params[1]
    } else {
        default
    }
}

/// The distance of a relative cursor move: the first parameter, where a
/// missing parameter and 0 both mean 1.
pub open spec fn move_count(params: Seq<usize>) -> usize {
    if first_param(params, 1) == 0 {
        1
    } else {
        first_param(params, 1)
    }
}

/// A one-based coordinate as a zero-based one; 0 and 1 both name the first row or column.
pub open spec fn zero_based(p: usize) -> usize {
    if p == 0 {
        0
    } else {
        (p - 1) as usize
    }
}

/// The clear mode that a parameter selects: 0, 1 and 2 are the three modes,
/// and a missing parameter means 0.
pub open spec fn clear_mode(params: Seq<usize>) -> Option<ClearMode> {
    let p = first_param(params, 0);
    if p == 0 {
        Some(ClearMode::ToEnd)
    } else if p == 1 {
        Some(ClearMode::ToBeginning)
    } else if p == 2 {
        Some(ClearMode::Entire)
    } else {
        None
    }
}

/// What a CSI sequence with final character `cmd` and parameters `params` means.
pub open spec fn csi_command(cmd: char, params: Seq<usize>) -> Result<AnsiCommand, ParseErrorView> {
    if cmd == 'A' {
        Ok(AnsiCommand::CursorUp(move_count(params)))
    } else if cmd == 'B' {
        Ok(AnsiCommand::CursorDown(move_count(params)))
    } else if cmd == 'C' {
        Ok(AnsiCommand::CursorForward(move_count(params)))
    } else if cmd == 'D' {
        Ok(AnsiCommand::CursorBack(move_count(params)))
    } else if cmd == 'H' || cmd == 'f' {
        Ok(
            AnsiCommand::CursorPosition {
                row: zero_based(first_param(params, 1)),
                col: zero_based(second_param(params, 1)),
            },
        )
    } else if cmd == 'J' {
        match clear_mode(params) {
            Some(mode) => Ok(AnsiCommand::ClearScreen(mode)),
            None => Err(
                ParseErrorView::InvalidParameterRange { param: "clear_screen"@, min: 0, max: 2 },
            ),
        }
    } else if cmd == 'K' {
        match clear_mode(params) {
            Some(mode) => Ok(AnsiCommand::ClearLine(mode)),
            None => Err(
                ParseErrorView::InvalidParameterRange { param: "clear_line"@, min: 0, max: 2 },
            ),
        }
    } else if cmd == 'm' {
        Ok(AnsiCommand::SetGraphicsRendition)
    } else {
        Err(ParseErrorView::InvalidEscapeSequence("Unknown CSI command: "@.push(cmd)))
    }
}

/// The largest zero-based row or column that a cursor position command may name.
pub const MAX_POSITION: usize = 65535;

impl AnsiCommand {
    /// Whether the command's parameters are in range: a relative move goes at
    /// least one cell, and an absolute position stays within `MAX_POSITION`.
    pub open spec fn is_valid(self) -> bool {
        match self {
            AnsiCommand::CursorUp(n) => n >= 1,
            AnsiCommand::CursorDown(n) => n >= 1,
            AnsiCommand::CursorForward(n) => n >= 1,
            AnsiCommand::CursorBack(n) => n >= 1,
            AnsiCommand::CursorPosition { row, col } => row <= MAX_POSITION && col <= MAX_POSITION,
            _ => true,
        }
    }

    /// The error that an out-of-range command is refused with.
    pub open spec fn range_error(self) -> ParseErrorView {
        match self {
            AnsiCommand::CursorPosition { .. } => ParseErrorView::InvalidParameterRange {
                param: "cursor_position"@,
                min: 0,
                max: MAX_POSITION,
            },
            _ => ParseErrorView::InvalidParameterRange {
                param: "cursor_movement"@,
                min: 1,
                max: usize::MAX,
            },
        }
    }

    /// Interprets the final character and the numeric parameters of a CSI sequence.
    pub fn from_csi_command(cmd: char, params: &[usize]) -> (r: Result<AnsiCommand, ParseError>)
        ensures
            result_view(r) == csi_command(cmd, params@),
    {
        let first: Option<usize> = if params.len() > 0 { Some(params[0]) } else { None };
        let second: Option<usize> = if params.len() > 1 { Some(params[1]) } else { None };
        match cmd {
            'A' => Ok(AnsiCommand::CursorUp(Self::count(first))),
            'B' => Ok(AnsiCommand::CursorDown(Self::count(first))),
            'C' => Ok(AnsiCommand::CursorForward(Self::count(first))),
            'D' => Ok(AnsiCommand::CursorBack(Self::count(first))),
            'H' | 'f' => {
                let row: usize = match first {
                    Some(p) => p.saturating_sub(1),
                    None => 0,
                };
                let col: usize = match second {
                    Some(p) => p.saturating_sub(1),
                    None => 0,
                };
                Ok(AnsiCommand::CursorPosition { row, col })
            },
            'J' => {
                match Self::mode(first) {
                    Some(mode) => Ok(AnsiCommand::ClearScreen(mode)),
                    None => Err(
                        ParseError::InvalidParameterRange {
                            param: "clear_screen".to_owned(),
                            min: 0,
                            max: 2,
                        },
                    ),
                }
            },
            'K' => {
                match Self::mode(first) {
                    Some(mode) => Ok(AnsiCommand::ClearLine(mode)),
                    None => Err(
                        ParseError::InvalidParameterRange {
                            param: "clear_line".to_owned(),
                            min: 0,
                            max: 2,
                        },
                    ),
                }
            },
            'm' => Ok(AnsiCommand::SetGraphicsRendition),
            _ => {
                let mut text = "Unknown CSI command: ".to_owned();
                text.push(cmd);
                Err(ParseError::InvalidEscapeSequence(text))
            },
        }
    }

    fn count(first: Option<usize>) -> (n: usize)
        ensures
            n == match first {
                Some(p) => if p == 0 { 1 } else { p },
                None => 1,
            },
    {
        match first {
            Some(p) => if p == 0 { 1 } else { p },
            None => 1,
        }
    }

    fn mode(first: Option<usize>) -> (m: Option<ClearMode>)
        ensures
            m == match first {
                Some(p) => clear_mode(seq![p]),
                None => clear_mode(Seq::empty()),
            },
    {
        let p: usize = match first {
            Some(p) => p,
            None => 0,
        };
        if p == 0 {
            Some(ClearMode::ToEnd)
        } else if p == 1 {
            Some(ClearMode::ToBeginning)
        } else if p == 2 {
            Some(ClearMode::Entire)
        } else {
            None
        }
    }

    /// Checks that the command's parameters are in range.
    pub fn validate(&self) -> (r: Result<(), ParseError>)
        ensures
            result_view(r) == if self.is_valid() {
                Ok(())
            } else {
                Err(self.range_error())
            },
    {
        match self {
            AnsiCommand::CursorUp(n)
            | AnsiCommand::CursorDown(n)
            | AnsiCommand::CursorForward(n)
            | AnsiCommand::CursorBack(n) => {
                if *n == 0 {
                    return Err(
                        ParseError::InvalidParameterRange {
                            param: "cursor_movement".to_owned(),
                            min: 1,
                            max: usize::MAX,
                        },
                    );
                }
            },
            AnsiCommand::CursorPosition { row, col } => {
                if *row > MAX_POSITION || *col > MAX_POSITION {
                    return Err(
                        ParseError::InvalidParameterRange {
                            param: "cursor_position".to_owned(),
                            min: 0,
                            max: MAX_POSITION,
                        },
                    );
                }
            },
            _ => {},
        }
        Ok(())
    }
}

} // verus!
