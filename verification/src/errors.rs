//! What the terminal refuses, with a message for each error.

use crate::text::{decimal, push_decimal};
use vstd::prelude::*;

verus! {

/// What the terminal refuses.
#[derive(Debug)]
pub enum VirtualTtyError {
    InvalidEscapeSequence(String),
    CursorOutOfBounds { row: usize, col: usize },
    InvalidParameter(String),
}

/// An error with its strings as character sequences.
pub enum VirtualTtyErrorView {
    InvalidEscapeSequence(Seq<char>),
    CursorOutOfBounds { row: usize, col: usize },
    InvalidParameter(Seq<char>),
}

impl View for VirtualTtyError {
    type V = VirtualTtyErrorView;

    open spec fn view(&self) -> VirtualTtyErrorView {
        match *self {
            VirtualTtyError::InvalidEscapeSequence(s) => VirtualTtyErrorView::InvalidEscapeSequence(
                s@,
            ),
            VirtualTtyError::CursorOutOfBounds { row, col } => {
                VirtualTtyErrorView::CursorOutOfBounds { row, col }
            },
            VirtualTtyError::InvalidParameter(s) => VirtualTtyErrorView::InvalidParameter(s@),
        }
    }
}

impl VirtualTtyErrorView {
    /// The error as a sentence for a human reader.
    pub open spec fn message(self) -> Seq<char> {
        match self {
            VirtualTtyErrorView::InvalidEscapeSequence(s) => "Invalid escape sequence: "@ + s,
            VirtualTtyErrorView::CursorOutOfBounds { row, col } => {
                "Cursor position out of bounds: ("@ + decimal(row as nat) + ", "@ + decimal(
                    col as nat,
                ) + ")"@
            },
            VirtualTtyErrorView::InvalidParameter(s) => "Invalid parameter: "@ + s,
        }
    }
}

impl VirtualTtyError {
    /// The error as a sentence for a human reader.
    pub fn message(&self) -> (s: String)
        ensures
            s@ == self@.message(),
    {
        match self {
            VirtualTtyError::InvalidEscapeSequence(seq) => {
                let mut s = "Invalid escape sequence: ".to_owned();
                s.append(seq.as_str());
                s
            },
            VirtualTtyError::CursorOutOfBounds { row, col } => {
                let mut s = "Cursor position out of bounds: (".to_owned();
                push_decimal(&mut s, *row);
                s.append(", ");
                push_decimal(&mut s, *col);
                s.append(")");
                s
            },
            VirtualTtyError::InvalidParameter(param) => {
                let mut s = "Invalid parameter: ".to_owned();
                s.append(param.as_str());
                s
            },
        }
    }
}

} // verus!
