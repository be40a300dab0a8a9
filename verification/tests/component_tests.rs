use virtual_tty::ansi::commands::{AnsiCommand, ClearMode, ControlChar, ParseError, Token};
use virtual_tty::ansi::parser::{parse_escape_sequence, read_escape_sequence, AnsiParser};
use virtual_tty::buffer::Buffer;
use virtual_tty::cursor::Cursor;
use virtual_tty::errors::VirtualTtyError;
use virtual_tty::state::TtyState;
use virtual_tty::text::{parse_unsigned, push_decimal, push_range, to_chars};
use virtual_tty::VirtualTty;

fn tokens(input: &str) -> Vec<Token> {
    AnsiParser::parse(input).unwrap()
}

fn invalid(reason: &str) -> Token {
    Token::Invalid(reason.to_string())
}

#[test]
fn cursor_moves_stop_at_the_edges() {
    let mut c = Cursor::new();
    assert_eq!(c.get_position(), (0, 0));
    c.move_down(3, 10);
    c.move_forward(4, 20);
    assert_eq!(c.get_position(), (3, 4));
    c.move_up(2);
    c.move_back(1);
    assert_eq!(c.get_position(), (1, 3));
    c.move_up(7);
    c.move_back(usize::MAX);
    assert_eq!(c.get_position(), (0, 0));
    c.move_down(usize::MAX, 10);
    c.move_forward(usize::MAX, 20);
    assert_eq!(c.get_position(), (9, 19));
    c.move_down(1, 10);
    c.move_forward(1, 20);
    assert_eq!(c.get_position(), (9, 19));
    c.set_position(4, 50, 10, 20);
    assert_eq!(c.get_position(), (4, 19));
    c.set_position(50, 4, 10, 20);
    assert_eq!(c.get_position(), (9, 4));
    c.carriage_return();
    assert_eq!(c.get_position(), (9, 0));
}

#[test]
fn cursor_newline_asks_for_a_scroll_at_the_bottom() {
    let mut c = Cursor { row: 0, col: 5 };
    assert!(!c.newline(3));
    assert_eq!(c.get_position(), (1, 0));
    assert!(!c.newline(3));
    assert_eq!(c.get_position(), (2, 0));
    assert!(c.newline(3));
    assert_eq!(c.get_position(), (2, 0));
}

#[test]
fn cursor_advance_wraps_and_asks_for_a_scroll() {
    let mut c = Cursor { row: 0, col: 2 };
    assert!(!c.advance(4, 2));
    assert_eq!(c.get_position(), (0, 3));
    assert!(!c.advance(4, 2));
    assert_eq!(c.get_position(), (1, 0));
    c.move_forward(3, 4);
    assert!(c.advance(4, 2));
    assert_eq!(c.get_position(), (1, 0));
}

#[test]
fn cursor_backspace_does_not_leave_the_row() {
    let mut c = Cursor { row: 2, col: 1 };
    c.backspace();
    assert_eq!(c.get_position(), (2, 0));
    c.backspace();
    assert_eq!(c.get_position(), (2, 0));
}

#[test]
fn buffer_set_and_get() {
    let mut b = Buffer::new(4, 2);
    assert_eq!((b.width, b.height), (4, 2));
    assert_eq!(b.get_char(0, 0), Some(' '));
    b.set_char(1, 3, 'x');
    assert_eq!(b.get_char(1, 3), Some('x'));
    b.set_char(2, 0, 'y');
    b.set_char(0, 4, 'y');
    assert_eq!(b.get_char(2, 0), None);
    assert_eq!(b.get_char(0, 4), None);
    assert_eq!(b.get_snapshot(), "\n    \\n\n   x\\n\n");
    assert_eq!(b.snapshot(), "\n   x");
}

fn filled() -> Buffer {
    let mut b = Buffer::new(3, 3);
    let text = ["abc", "def", "ghi"];
    for (r, row) in text.iter().enumerate() {
        for (c, ch) in row.chars().enumerate() {
            b.set_char(r, c, ch);
        }
    }
    b
}

#[test]
fn buffer_clear_regions() {
    let mut b = filled();
    b.clear_from_cursor_to_end(1, 1);
    assert_eq!(b.snapshot(), "abc\nd");
    let mut b = filled();
    b.clear_from_beginning_to_cursor(1, 1);
    assert_eq!(b.snapshot(), "\n ef\nghi");
    let mut b = filled();
    b.clear_line_from_cursor_to_end(1, 1);
    assert_eq!(b.snapshot(), "abc\nd\nghi");
    let mut b = filled();
    b.clear_line_from_beginning_to_cursor(1, 1);
    assert_eq!(b.snapshot(), "abc\n  f\nghi");
    let mut b = filled();
    b.clear_entire_line(1);
    assert_eq!(b.snapshot(), "abc\n\nghi");
    let mut b = filled();
    b.clear();
    assert_eq!(b.snapshot(), "");
    assert_eq!(b.get_snapshot(), "\n   \\n\n   \\n\n   \\n\n");
}

#[test]
fn buffer_clear_regions_outside_the_grid() {
    let mut b = filled();
    b.clear_from_cursor_to_end(3, 0);
    b.clear_line_from_cursor_to_end(5, 0);
    b.clear_line_from_beginning_to_cursor(3, 2);
    b.clear_entire_line(3);
    b.clear_from_cursor_to_end(2, 9);
    b.clear_line_from_cursor_to_end(1, 3);
    b.clear_from_beginning_to_cursor(0, 0);
    assert_eq!(b.snapshot(), "abc\ndef\nghi");
    b.clear_from_cursor_to_end(1, 9);
    assert_eq!(b.snapshot(), "abc\ndef");
    b.clear_line_from_beginning_to_cursor(0, 9);
    assert_eq!(b.snapshot(), "\ndef");
    b.clear_from_beginning_to_cursor(7, 0);
    assert_eq!(b.snapshot(), "");
}

#[test]
fn buffer_scroll_and_resize() {
    let mut b = filled();
    b.scroll_up();
    assert_eq!(b.get_snapshot(), "\ndef\\n\nghi\\n\n   \\n\n");
    let grown = Buffer::resize_from(&b, 5, 2);
    assert_eq!((grown.width, grown.height), (5, 2));
    assert_eq!(grown.get_snapshot(), "\ndef  \\n\nghi  \\n\n");
    let cut = Buffer::resize_from(&b, 2, 4);
    assert_eq!(cut.get_snapshot(), "\nde\\n\ngh\\n\n  \\n\n  \\n\n");
}

#[test]
fn snapshot_trims_spaces_and_empty_rows() {
    let mut tty = VirtualTty::new(7, 4);
    tty.stdout_write("  a  b\n\n c");
    assert_eq!(tty.snapshot(), "  a  b\n\n c");
    assert_eq!(tty.get_snapshot(), "\n  a  b \\n\n       \\n\n c     \\n\n       \\n\n");
}

#[test]
fn tokenizer_text_runs_are_maximal() {
    assert_eq!(tokens(""), vec![]);
    assert_eq!(tokens("héllo wörld\u{1}\u{7f}"), vec![Token::Text("héllo wörld\u{1}\u{7f}".to_string())]);
    assert_eq!(
        tokens("a\nb"),
        vec![
            Token::Text("a".to_string()),
            Token::ControlChar(ControlChar::LineFeed),
            Token::Text("b".to_string())
        ]
    );
}

#[test]
fn tokenizer_controls() {
    assert_eq!(
        tokens("\n\r\x08\t\x07\x0b\x0c"),
        vec![
            Token::ControlChar(ControlChar::LineFeed),
            Token::ControlChar(ControlChar::CarriageReturn),
            Token::ControlChar(ControlChar::Backspace),
            Token::ControlChar(ControlChar::Tab),
            Token::ControlChar(ControlChar::Bell),
            Token::ControlChar(ControlChar::VerticalTab),
            Token::ControlChar(ControlChar::FormFeed),
        ]
    );
}

#[test]
fn tokenizer_commands() {
    let cases = [
        ("\x1b[A", AnsiCommand::CursorUp(1)),
        ("\x1b[0B", AnsiCommand::CursorDown(1)),
        ("\x1b[12C", AnsiCommand::CursorForward(12)),
        ("\x1b[3;4D", AnsiCommand::CursorBack(3)),
        ("\x1b[H", AnsiCommand::CursorPosition { row: 0, col: 0 }),
        ("\x1b[0;0H", AnsiCommand::CursorPosition { row: 0, col: 0 }),
        ("\x1b[;5H", AnsiCommand::CursorPosition { row: 0, col: 4 }),
        ("\x1b[7f", AnsiCommand::CursorPosition { row: 6, col: 0 }),
        ("\x1b[2;3;4f", AnsiCommand::CursorPosition { row: 1, col: 2 }),
        ("\x1b[J", AnsiCommand::ClearScreen(ClearMode::ToEnd)),
        ("\x1b[1J", AnsiCommand::ClearScreen(ClearMode::ToBeginning)),
        ("\x1b[2J", AnsiCommand::ClearScreen(ClearMode::Entire)),
        ("\x1b[K", AnsiCommand::ClearLine(ClearMode::ToEnd)),
        ("\x1b[1K", AnsiCommand::ClearLine(ClearMode::ToBeginning)),
        ("\x1b[2;9K", AnsiCommand::ClearLine(ClearMode::Entire)),
        ("\x1b[m", AnsiCommand::SetGraphicsRendition),
        ("\x1b[1;31;42m", AnsiCommand::SetGraphicsRendition),
        ("\x1b[+3A", AnsiCommand::CursorUp(3)),
        ("\x1b[007B", AnsiCommand::CursorDown(7)),
    ];
    for (input, command) in cases {
        assert_eq!(tokens(input), vec![Token::Command(command)], "{:?}", input);
    }
}

#[test]
fn tokenizer_invalid_sequences() {
    let cases = [
        ("\x1b[3J", "CSI parse error: Parameter 'clear_screen' out of range: must be between 0 and 2"),
        ("\x1b[9K", "CSI parse error: Parameter 'clear_line' out of range: must be between 0 and 2"),
        ("\x1b[999Z", "CSI parse error: Invalid escape sequence: Unknown CSI command: Z"),
        ("\x1b[5~", "CSI parse error: Invalid escape sequence: Unknown CSI command: ~"),
        ("\x1b[?25h", "CSI parse error: Invalid parameter: Cannot parse parameter: ?25"),
        ("\x1b[1;!;3A", "CSI parse error: Invalid parameter: Cannot parse parameter: !"),
        ("\x1b[-1A", "CSI parse error: Invalid parameter: Cannot parse parameter: -1"),
        ("\x1b[+A", "CSI parse error: Invalid parameter: Cannot parse parameter: +"),
        ("\x1b[1 A", "CSI parse error: Invalid parameter: Cannot parse parameter: 1 "),
        (
            "\x1b[99999999999999999999999999A",
            "CSI parse error: Invalid parameter: Cannot parse parameter: 99999999999999999999999999",
        ),
        ("\x1b[", "CSI parse error: Unexpected end of input"),
        ("\x1b[12;", "CSI parse error: Unexpected end of input"),
        ("\x1b", "incomplete escape"),
    ];
    for (input, reason) in cases {
        assert_eq!(tokens(input), vec![invalid(reason)], "{:?}", input);
    }
}

#[test]
fn tokenizer_escape_without_bracket_takes_the_next_character() {
    assert_eq!(tokens("\x1bXab"), vec![invalid("incomplete escape"), Token::Text("ab".to_string())]);
    assert_eq!(
        tokens("a\x1b\nb"),
        vec![Token::Text("a".to_string()), invalid("incomplete escape"), Token::Text("b".to_string())]
    );
    assert_eq!(
        tokens("\x1b\x1b[2J"),
        vec![invalid("incomplete escape"), Token::Text("[2J".to_string())]
    );
}

#[test]
fn tokenizer_sequence_takes_everything_up_to_its_final_character() {
    assert_eq!(
        tokens("\x1b[1\n2Ax"),
        vec![
            invalid("CSI parse error: Invalid parameter: Cannot parse parameter: 1\n2"),
            Token::Text("x".to_string())
        ]
    );
    assert_eq!(
        tokens("ab\x1b[2Kcd\x1b[10;20Hef"),
        vec![
            Token::Text("ab".to_string()),
            Token::Command(AnsiCommand::ClearLine(ClearMode::Entire)),
            Token::Text("cd".to_string()),
            Token::Command(AnsiCommand::CursorPosition { row: 9, col: 19 }),
            Token::Text("ef".to_string()),
        ]
    );
}

#[test]
fn from_csi_command_errors() {
    assert_eq!(
        AnsiCommand::from_csi_command('J', &[3]),
        Err(ParseError::InvalidParameterRange { param: "clear_screen".to_string(), min: 0, max: 2 })
    );
    assert_eq!(
        AnsiCommand::from_csi_command('K', &[7, 0]),
        Err(ParseError::InvalidParameterRange { param: "clear_line".to_string(), min: 0, max: 2 })
    );
    assert_eq!(
        AnsiCommand::from_csi_command('q', &[]),
        Err(ParseError::InvalidEscapeSequence("Unknown CSI command: q".to_string()))
    );
    assert_eq!(AnsiCommand::from_csi_command('H', &[usize::MAX, 0]), Ok(AnsiCommand::CursorPosition {
        row: usize::MAX - 1,
        col: 0
    }));
    assert_eq!(AnsiCommand::from_csi_command('C', &[0, 9]), Ok(AnsiCommand::CursorForward(1)));
}

#[test]
fn validate_checks_ranges() {
    assert_eq!(AnsiCommand::CursorUp(1).validate(), Ok(()));
    assert_eq!(AnsiCommand::CursorBack(usize::MAX).validate(), Ok(()));
    assert_eq!(AnsiCommand::CursorPosition { row: 65535, col: 65535 }.validate(), Ok(()));
    assert_eq!(AnsiCommand::ClearScreen(ClearMode::Entire).validate(), Ok(()));
    assert_eq!(AnsiCommand::SetGraphicsRendition.validate(), Ok(()));
    let movement =
        ParseError::InvalidParameterRange { param: "cursor_movement".to_string(), min: 1, max: usize::MAX };
    for command in [
        AnsiCommand::CursorUp(0),
        AnsiCommand::CursorDown(0),
        AnsiCommand::CursorForward(0),
        AnsiCommand::CursorBack(0),
    ] {
        assert_eq!(command.validate(), Err(movement.clone()));
    }
    let position =
        ParseError::InvalidParameterRange { param: "cursor_position".to_string(), min: 0, max: 65535 };
    assert_eq!(AnsiCommand::CursorPosition { row: 65536, col: 0 }.validate(), Err(position.clone()));
    assert_eq!(AnsiCommand::CursorPosition { row: 0, col: 65536 }.validate(), Err(position));
}

#[test]
fn parse_error_messages() {
    assert_eq!(
        ParseError::InvalidEscapeSequence("abc".to_string()).message(),
        "Invalid escape sequence: abc"
    );
    assert_eq!(ParseError::InvalidParameter("p".to_string()).message(), "Invalid parameter: p");
    assert_eq!(
        ParseError::InvalidParameterCount { expected: 2, actual: 10 }.message(),
        "Invalid parameter count: expected 2, got 10"
    );
    assert_eq!(
        ParseError::InvalidParameterRange { param: "n".to_string(), min: 0, max: 65535 }.message(),
        "Parameter 'n' out of range: must be between 0 and 65535"
    );
    assert_eq!(ParseError::UnexpectedEndOfInput.message(), "Unexpected end of input");
    assert_eq!(ParseError::InvalidCharacter('é').message(), "Invalid character: 'é'");
    assert_eq!(
        AnsiCommand::CursorUp(0).validate().unwrap_err().message(),
        format!("Parameter 'cursor_movement' out of range: must be between 1 and {}", usize::MAX)
    );
}

#[test]
fn tty_error_messages() {
    assert_eq!(
        VirtualTtyError::InvalidEscapeSequence("x".to_string()).message(),
        "Invalid escape sequence: x"
    );
    assert_eq!(
        VirtualTtyError::CursorOutOfBounds { row: 12, col: 0 }.message(),
        "Cursor position out of bounds: (12, 0)"
    );
    assert_eq!(VirtualTtyError::InvalidParameter("y".to_string()).message(), "Invalid parameter: y");
}

#[test]
fn try_new_refuses_a_size_without_cells() {
    for (w, h) in [(0, 0), (0, 5), (5, 0)] {
        match VirtualTty::try_new(w, h) {
            Err(VirtualTtyError::InvalidParameter(text)) => {
                assert_eq!(text, "width and height must be at least 1")
            }
            _ => panic!("a size without cells was accepted"),
        }
    }
    let tty = VirtualTty::try_new(1, 1).ok().unwrap();
    assert_eq!(tty.get_size(), (1, 1));
    assert_eq!(tty.get_snapshot(), "\n \\n\n");
}

#[test]
fn text_helpers() {
    assert_eq!(to_chars("aé\u{1F600}"), vec!['a', 'é', '\u{1F600}']);
    let mut s = String::from("n=");
    push_decimal(&mut s, 0);
    push_decimal(&mut s, 9);
    push_decimal(&mut s, 10);
    push_decimal(&mut s, 12345678);
    assert_eq!(s, "n=091012345678");
    let mut s = String::new();
    push_decimal(&mut s, usize::MAX);
    assert_eq!(s, usize::MAX.to_string());
    let chars = to_chars("hello");
    let mut s = String::from(">");
    push_range(&mut s, &chars, 1, 4);
    push_range(&mut s, &chars, 2, 2);
    assert_eq!(s, ">ell");
}

#[test]
fn unsigned_numerals() {
    let parse = |t: &str| {
        let chars = to_chars(t);
        parse_unsigned(&chars, 0, chars.len())
    };
    assert_eq!(parse("0"), Some(0));
    assert_eq!(parse("42"), Some(42));
    assert_eq!(parse("+42"), Some(42));
    assert_eq!(parse("0042"), Some(42));
    assert_eq!(parse(&usize::MAX.to_string()), Some(usize::MAX));
    assert_eq!(parse(&format!("{}0", usize::MAX)), None);
    assert_eq!(parse(&format!("{}", usize::MAX as u128 + 1)), None);
    assert_eq!(parse(""), None);
    assert_eq!(parse("+"), None);
    assert_eq!(parse("-1"), None);
    assert_eq!(parse("1_000"), None);
    assert_eq!(parse(" 1"), None);
    assert_eq!(parse("١"), None);
    let chars = to_chars("a12b");
    assert_eq!(parse_unsigned(&chars, 1, 3), Some(12));
}

#[test]
fn write_takes_all_bytes_and_decodes_them() {
    let mut tty = VirtualTty::new(8, 2);
    assert_eq!(tty.write_stdout(b"ab"), 2);
    assert_eq!(tty.write_stderr("é€".as_bytes()), 5);
    assert_eq!(tty.write_stdout(b""), 0);
    assert_eq!(tty.snapshot(), "abé€");
    assert_eq!(tty.get_cursor_position(), (0, 4));
    assert_eq!(tty.write_stdout(b"\xffz\xc3"), 3);
    assert_eq!(tty.snapshot(), "abé€\u{fffd}z\u{fffd}");
    assert_eq!(tty.get_cursor_position(), (0, 7));
    assert_eq!(tty.write_stderr(b"\x1b[2J\xf0\x9f\x98\x80"), 8);
    assert_eq!(tty.snapshot(), "\u{1F600}");
}

#[test]
fn controls_act_on_the_screen() {
    let mut tty = VirtualTty::new(20, 3);
    tty.stdout_write("ab\tc");
    assert_eq!(tty.get_cursor_position(), (0, 9));
    assert_eq!(tty.snapshot(), "ab      c");
    tty.stdout_write("\x1b[1;9H\t");
    assert_eq!(tty.get_cursor_position(), (0, 16));
    assert_eq!(tty.snapshot(), "ab");
    tty.stdout_write("\t");
    assert_eq!(tty.get_cursor_position(), (1, 4));
    tty.stdout_write("xy\x07\x08\x08\x08\x08\x08\x08\x08z");
    assert_eq!(tty.get_cursor_position(), (1, 1));
    assert_eq!(tty.snapshot(), "ab\nz   xy");
    tty.stdout_write("\x0b");
    assert_eq!(tty.get_cursor_position(), (2, 0));
    tty.stdout_write("q\rr\n");
    assert_eq!(tty.get_cursor_position(), (2, 0));
    assert_eq!(tty.snapshot(), "z   xy\nr");
    tty.stdout_write("\x0c");
    assert_eq!(tty.get_cursor_position(), (0, 0));
    assert_eq!(tty.snapshot(), "");
}

#[test]
fn unknown_sequences_are_ignored() {
    let mut tty = VirtualTty::new(10, 2);
    tty.stdout_write("a\x1b[?25hb\x1b[31mc\x1b[5~d\x1b]e\x1b[3Jf\x1b[");
    assert_eq!(tty.snapshot(), "abcdef");
    assert_eq!(tty.get_cursor_position(), (0, 6));
}

#[test]
fn lenient_reader_takes_the_sequence_from_the_iterator() {
    let mut chars = "5;10Hrest".chars();
    assert_eq!(
        parse_escape_sequence(&mut chars),
        Some(AnsiCommand::CursorPosition { row: 4, col: 9 })
    );
    assert_eq!(chars.as_str(), "rest");
    let mut chars = "?;2;!Dz".chars();
    assert_eq!(parse_escape_sequence(&mut chars), Some(AnsiCommand::CursorBack(1)));
    assert_eq!(chars.as_str(), "z");
    let mut chars = "3Jz".chars();
    assert_eq!(parse_escape_sequence(&mut chars), None);
    assert_eq!(chars.as_str(), "z");
    let mut chars = "12;3".chars();
    assert_eq!(parse_escape_sequence(&mut chars), None);
    assert_eq!(chars.as_str(), "");
    let mut chars = "".chars();
    assert_eq!(parse_escape_sequence(&mut chars), None);
}

#[test]
fn lenient_reader_on_a_slice() {
    let chars = to_chars("2;7frest");
    assert_eq!(
        read_escape_sequence(&chars),
        (Some(AnsiCommand::CursorPosition { row: 1, col: 6 }), 4)
    );
    assert_eq!(read_escape_sequence(&to_chars("?25h")), (None, 4));
    assert_eq!(read_escape_sequence(&to_chars("?25A")), (Some(AnsiCommand::CursorUp(1)), 4));
    assert_eq!(read_escape_sequence(&to_chars("12")), (None, 2));
    assert_eq!(read_escape_sequence(&[]), (None, 0));
}

#[test]
fn lenient_write() {
    let mut state = TtyState::new(10, 3);
    state.write_lenient("Hello\x1b[3D12\x1b[K\r\nab\x08c\tz\x1bQx\x1b[70000;1Hy\x1b");
    assert_eq!(state.snapshot(), "He12\nac\tzx\ny");
    assert_eq!(state.get_cursor_position(), (2, 1));
    let mut state = TtyState::new(4, 2);
    state.write_lenient("abcdefgh\x1b[");
    assert_eq!(state.get_snapshot(), "\nefgh\\n\n    \\n\n");
}

#[test]
fn state_operations() {
    let mut state = TtyState::new(4, 2);
    state.put_char('a');
    state.put_text("bcde");
    assert_eq!(state.get_cursor_position(), (1, 1));
    state.process_token(Token::Command(AnsiCommand::CursorUp(0)));
    assert_eq!(state.get_cursor_position(), (1, 1));
    state.execute_ansi_command(&AnsiCommand::CursorUp(0));
    assert_eq!(state.get_cursor_position(), (1, 1));
    state.execute_ansi_command(&AnsiCommand::CursorPosition { row: 70000, col: 70000 });
    assert_eq!(state.get_cursor_position(), (1, 3));
    state.process_token(Token::Command(AnsiCommand::CursorUp(1)));
    state.process_token(Token::Text("Z".to_string()));
    state.process_token(Token::Invalid("why".to_string()));
    state.process_token(Token::ControlChar(ControlChar::Backspace));
    assert_eq!(state.get_cursor_position(), (1, 0));
    assert_eq!(state.get_snapshot(), "\nabcZ\\n\ne   \\n\n");
    state.clear(4, 2);
    assert_eq!(state.get_cursor_position(), (0, 0));
    assert_eq!(state.snapshot(), "");
}

#[test]
fn terminal_takes_tokens_and_commands() {
    let mut tty = VirtualTty::new(6, 2);
    tty.send_input("ab");
    assert_eq!(tty.get_cursor_position(), (0, 2));
    assert_eq!(tty.get_width(), 6);
    assert_eq!(tty.get_height(), 2);
    tty.clear();
    assert_eq!(tty.get_cursor_position(), (0, 0));
    assert_eq!(tty.snapshot(), "");
}
