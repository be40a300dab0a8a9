//! Terminal input as tokens: the token and command types, the tokenizer,
//! and lemmas about tokenization.

pub mod commands;
pub mod lemmas;
pub mod parser;

pub use commands::{AnsiCommand, ClearMode, ControlChar, Token};
pub use parser::{parse_escape_sequence, AnsiParser};
