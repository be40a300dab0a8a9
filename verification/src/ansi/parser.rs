//! The tokenizer: terminal input split into text, control characters, CSI
//! commands, and what is left of escape sequences that are not understood.

use crate::ansi::commands::{
    csi_command, result_view, AnsiCommand, ControlChar, ParseError, ParseErrorView, Token,
    TokenView,
};
use crate::text::{is_ascii_letter, parse_unsigned, push_range, to_chars, unsigned_decimal};
use vstd::prelude::*;
use vstd::slice::slice_subrange;
use vstd::std_specs::iter::IteratorSpec;

verus! {

/// The character that introduces an escape sequence.
pub const ESCAPE: char = '\x1b';

/// The control that a character stands for, if it is one the terminal acts on.
pub open spec fn control_char(c: char) -> Option<ControlChar> {
    if c == '\n' {
        Some(ControlChar::LineFeed)
    } else if c == '\r' {
        Some(ControlChar::CarriageReturn)
    } else if c == '\x08' {
        Some(ControlChar::Backspace)
    } else if c == '\t' {
        Some(ControlChar::Tab)
    } else if c == '\x07' {
        Some(ControlChar::Bell)
    } else if c == '\x0b' {
        Some(ControlChar::VerticalTab)
    } else if c == '\x0c' {
        Some(ControlChar::FormFeed)
    } else {
        None
    }
}

/// Whether `c` is printed as it is: neither the escape character nor a control.
pub open spec fn is_plain(c: char) -> bool {
    c != ESCAPE && control_char(c) is None
}

/// Whether `c` closes a CSI sequence: an ASCII letter or a tilde.
pub open spec fn is_final(c: char) -> bool {
    is_ascii_letter(c) || c == '~'
}

/// The characters that end a run of text.
pub open spec fn text_stop() -> spec_fn(char) -> bool {
    |c: char| !is_plain(c)
}

/// The characters that close a CSI sequence.
pub open spec fn final_stop() -> spec_fn(char) -> bool {
    |c: char| is_final(c)
}

/// The character that separates two parameters.
pub open spec fn separator_stop() -> spec_fn(char) -> bool {
    |c: char| c == ';'
}

/// The first index at or after `from` whose character satisfies `stop`, or
/// the length of `s` if there is none.
pub open spec fn scan(s: Seq<char>, from: int, stop: spec_fn(char) -> bool) -> int
    decreases s.len() - from,
{
    if from < 0 || from >= s.len() {
        s.len() as int
    } else if stop(s[from]) {
        from
    } else {
        scan(s, from + 1, stop)
    }
}

/// `scan` stays within the string and passes over no character that stops it.
pub proof fn lemma_scan(s: Seq<char>, from: int, stop: spec_fn(char) -> bool)
    requires
        0 <= from <= s.len(),
    ensures
        from <= scan(s, from, stop) <= s.len(),
        forall|k: int| from <= k < scan(s, from, stop) ==> !stop(#[trigger] s[k]),
        scan(s, from, stop) < s.len() ==> stop(s[scan(s, from, stop)]),
    decreases s.len() - from,
{
    if from < s.len() && !stop(s[from]) {
        lemma_scan(s, from + 1, stop);
    }
}

/// The number that one parameter stands for: nothing written means 0, and
/// anything else has to be an unsigned decimal numeral.
pub open spec fn segment_value(segment: Seq<char>) -> Option<usize> {
    if segment.len() == 0 {
        Some(0)
    } else {
        unsigned_decimal(segment)
    }
}

/// The error for a parameter that is not a number.
pub open spec fn bad_parameter(segment: Seq<char>) -> ParseErrorView {
    ParseErrorView::InvalidParameter("Cannot parse parameter: "@ + segment)
}

/// `values` followed by what `rest` holds, or the error of `rest`.
pub open spec fn prepend(values: Seq<usize>, rest: Result<Seq<usize>, ParseErrorView>) -> Result<
    Seq<usize>,
    ParseErrorView,
> {
    match rest {
        Ok(more) => Ok(values + more),
        Err(e) => Err(e),
    }
}

/// The parameters written in `s` from index `from` on, separated by
/// semicolons, or the error for the first one that is not a number.
pub open spec fn parameters_from(s: Seq<char>, from: int) -> Result<Seq<usize>, ParseErrorView>
    decreases s.len() - from,
{
    if from < 0 || from > s.len() {
        Ok(Seq::empty())
    } else {
        let end = scan(s, from, separator_stop());
        let segment = s.subrange(from, end);
        match segment_value(segment) {
            None => Err(bad_parameter(segment)),
            Some(v) => if end >= s.len() {
                Ok(seq![v])
            } else {
                proof {
                    lemma_scan(s, from, separator_stop());
                }
                prepend(seq![v], parameters_from(s, end + 1))
            },
        }
    }
}

/// The parameters of a CSI sequence: none for an empty parameter string,
/// otherwise one for each part between semicolons.
pub open spec fn parameters(s: Seq<char>) -> Result<Seq<usize>, ParseErrorView> {
    if s.len() == 0 {
        Ok(Seq::empty())
    } else {
        parameters_from(s, 0)
    }
}

/// What the CSI sequence with parameter string `params` and final character `cmd` means.
pub open spec fn csi_sequence(params: Seq<char>, cmd: char) -> Result<AnsiCommand, ParseErrorView> {
    match parameters(params) {
        Ok(values) => csi_command(cmd, values),
        Err(e) => Err(e),
    }
}

/// What the CSI sequence means whose parameters start at index `from`, just
/// behind the introducer. A sequence that the input ends before its final
/// character is an error.
pub open spec fn csi_at(s: Seq<char>, from: int) -> Result<AnsiCommand, ParseErrorView> {
    let end = scan(s, from, final_stop());
    if end < s.len() {
        csi_sequence(s.subrange(from, end), s[end])
    } else {
        Err(ParseErrorView::UnexpectedEndOfInput)
    }
}

/// The index behind the CSI sequence whose parameters start at index `from`.
pub open spec fn csi_end(s: Seq<char>, from: int) -> int {
    let end = scan(s, from, final_stop());
    if end < s.len() {
        end + 1
    } else {
        s.len() as int
    }
}

/// The token for a CSI sequence: the command, or the reason why there is none.
pub open spec fn csi_token(r: Result<AnsiCommand, ParseErrorView>) -> TokenView {
    match r {
        Ok(command) => TokenView::Command(command),
        Err(e) => TokenView::Invalid("CSI parse error: "@ + e.message()),
    }
}

/// Whether a CSI sequence starts at index `i`: the escape character and an opening bracket.
pub open spec fn csi_starts(s: Seq<char>, i: int) -> bool {
    s[i] == ESCAPE && i + 1 < s.len() && s[i + 1] == '['
}

/// The token that starts at index `i` of `s`.
pub open spec fn token_at(s: Seq<char>, i: int) -> TokenView {
    if csi_starts(s, i) {
        csi_token(csi_at(s, i + 2))
    } else if s[i] == ESCAPE {
        TokenView::Invalid("incomplete escape"@)
    } else if control_char(s[i]) is Some {
        TokenView::ControlChar(control_char(s[i])->0)
    } else {
        TokenView::Text(s.subrange(i, scan(s, i + 1, text_stop())))
    }
}

/// The index behind the token that starts at index `i` of `s`. An escape
/// character that no bracket follows takes the next character with it.
pub open spec fn token_end(s: Seq<char>, i: int) -> int {
    if csi_starts(s, i) {
        csi_end(s, i + 2)
    } else if s[i] == ESCAPE {
        if i + 1 < s.len() {
            i + 2
        } else {
            i + 1
        }
    } else if control_char(s[i]) is Some {
        i + 1
    } else {
        scan(s, i + 1, text_stop())
    }
}

/// Every token ends behind its start and within the string.
pub proof fn lemma_token_end(s: Seq<char>, i: int)
    requires
        0 <= i < s.len(),
    ensures
        i < token_end(s, i) <= s.len(),
{
    if csi_starts(s, i) {
        lemma_scan(s, i + 2, final_stop());
    } else if is_plain(s[i]) {
        lemma_scan(s, i + 1, text_stop());
    }
}

/// The tokens of `s` from index `i` on.
pub open spec fn tokens_from(s: Seq<char>, i: int) -> Seq<TokenView>
    decreases s.len() - i,
{
    if i < 0 || i >= s.len() {
        Seq::empty()
    } else {
        proof {
            lemma_token_end(s, i);
        }
        seq![token_at(s, i)] + tokens_from(s, token_end(s, i))
    }
}

/// The tokens of `s`: runs of text as long as they can be, controls, CSI
/// commands, and what is left of escape sequences that are not understood.
pub open spec fn tokenize(s: Seq<char>) -> Seq<TokenView> {
    tokens_from(s, 0)
}

/// The views of a sequence of tokens.
pub open spec fn token_views(tokens: Seq<Token>) -> Seq<TokenView> {
    Seq::new(tokens.len(), |i: int| tokens[i]@)
}

/// The parameters of a result, as a sequence.
pub open spec fn parameters_view(r: Result<Vec<usize>, ParseError>) -> Result<
    Seq<usize>,
    ParseErrorView,
> {
    match r {
        Ok(v) => Ok(v@),
        Err(e) => Err(e@),
    }
}

/// The control that `c` stands for, if any.
pub fn control_of(c: char) -> (r: Option<ControlChar>)
    ensures
        r == control_char(c),
{
    if c == '\n' {
        Some(ControlChar::LineFeed)
    } else if c == '\r' {
        Some(ControlChar::CarriageReturn)
    } else if c == '\x08' {
        Some(ControlChar::Backspace)
    } else if c == '\t' {
        Some(ControlChar::Tab)
    } else if c == '\x07' {
        Some(ControlChar::Bell)
    } else if c == '\x0b' {
        Some(ControlChar::VerticalTab)
    } else if c == '\x0c' {
        Some(ControlChar::FormFeed)
    } else {
        None
    }
}

/// Whether `c` closes a CSI sequence.
pub fn closes_csi(c: char) -> (r: bool)
    ensures
        r == is_final(c),
{
    ('a' <= c && c <= 'z') || ('A' <= c && c <= 'Z') || c == '~'
}

/// A reader that splits terminal input into tokens.
pub struct AnsiParser {
    chars: Vec<char>,
    pos: usize,
}

impl AnsiParser {
    /// The whole input.
    pub closed spec fn input(&self) -> Seq<char> {
        self.chars@
    }

    /// The index of the next character to read.
    pub closed spec fn position(&self) -> int {
        self.pos as int
    }

    /// The position lies within the input.
    pub open spec fn wf(&self) -> bool {
        0 <= self.position() <= self.input().len()
    }

    /// A parser at the start of `input`.
    pub fn new(input: &str) -> (p: AnsiParser)
        ensures
            p.wf(),
            p.input() == input@,
            p.position() == 0,
    {
        AnsiParser { chars: to_chars(input), pos: 0 }
    }

    /// Splits `input` into tokens. Every input has a tokenization: what is
    /// not understood becomes an `Invalid` token.
    pub fn parse(input: &str) -> (r: Result<Vec<Token>, ParseError>)
        ensures
            r is Ok,
            token_views(r->Ok_0@) == tokenize(input@),
    {
        let mut parser = AnsiParser::new(input);
        let mut tokens: Vec<Token> = Vec::new();
        loop
            invariant
                parser.wf(),
                parser.input() == input@,
                token_views(tokens@) + tokens_from(input@, parser.position()) == tokenize(input@),
            decreases parser.input().len() - parser.position(),
        {
            let ghost before = parser.position();
            proof {
                if before < input@.len() {
                    lemma_token_end(input@, before);
                }
            }
            match parser.next_token() {
                Ok(Some(token)) => {
                    tokens.push(token);
                },
                Ok(None) => {
                    return Ok(tokens);
                },
                Err(e) => {
                    return Err(e);
                },
            }
        }
    }

    /// Reads the next token, if the input holds another one.
    fn next_token(&mut self) -> (r: Result<Option<Token>, ParseError>)
        requires
            old(self).wf(),
        ensures
            final(self).wf(),
            final(self).input() == old(self).input(),
            r is Ok,
            old(self).position() >= old(self).input().len() ==> {
                &&& r->Ok_0 is None
                &&& final(self).position() == old(self).position()
            },
            old(self).position() < old(self).input().len() ==> {
                &&& r->Ok_0 is Some
                &&& r->Ok_0->0@ == token_at(old(self).input(), old(self).position())
                &&& final(self).position() == token_end(old(self).input(), old(self).position())
            },
    {
        if self.pos >= self.chars.len() {
            return Ok(None);
        }
        let ghost s = self.chars@;
        let start: usize = self.pos;
        let c: char = self.chars[start];
        self.pos = start + 1;
        if c == ESCAPE {
            if self.pos < self.chars.len() && self.chars[self.pos] == '[' {
                self.pos = self.pos + 1;
                match self.parse_csi_sequence() {
                    Ok(command) => Ok(Some(Token::Command(command))),
                    Err(e) => {
                        let mut reason = "CSI parse error: ".to_owned();
                        reason.append(e.message().as_str());
                        Ok(Some(Token::Invalid(reason)))
                    },
                }
            } else {
                if self.pos < self.chars.len() {
                    self.pos = self.pos + 1;
                }
                Ok(Some(Token::Invalid("incomplete escape".to_owned())))
            }
        } else {
            match control_of(c) {
                Some(control) => Ok(Some(Token::ControlChar(control))),
                None => {
                    while self.pos < self.chars.len() && Self::is_plain_char(self.chars[self.pos])
                        invariant
                            self.chars@ == s,
                            start < self.pos <= s.len(),
                            scan(s, start + 1, text_stop()) == scan(
                                s,
                                self.pos as int,
                                text_stop(),
                            ),
                        decreases s.len() - self.pos,
                    {
                        self.pos = self.pos + 1;
                    }
                    let mut text = String::new();
                    push_range(&mut text, self.chars.as_slice(), start, self.pos);
                    Ok(Some(Token::Text(text)))
                },
            }
        }
    }

    /// Whether `c` is printed as it is.
    fn is_plain_char(c: char) -> (r: bool)
        ensures
            r == is_plain(c),
    {
        c != ESCAPE && control_of(c).is_none()
    }

    /// Reads a CSI sequence from behind its introducer to its final character.
    fn parse_csi_sequence(&mut self) -> (r: Result<AnsiCommand, ParseError>)
        requires
            old(self).wf(),
        ensures
            final(self).wf(),
            final(self).input() == old(self).input(),
            final(self).position() == csi_end(old(self).input(), old(self).position()),
            result_view(r) == csi_at(old(self).input(), old(self).position()),
    {
        let ghost s = self.chars@;
        let start: usize = self.pos;
        while self.pos < self.chars.len() && !closes_csi(self.chars[self.pos])
            invariant
                self.chars@ == s,
                start <= self.pos <= s.len(),
                scan(s, start as int, final_stop()) == scan(s, self.pos as int, final_stop()),
            decreases s.len() - self.pos,
        {
            self.pos = self.pos + 1;
        }
        if self.pos >= self.chars.len() {
            return Err(ParseError::UnexpectedEndOfInput);
        }
        let end: usize = self.pos;
        let cmd: char = self.chars[end];
        self.pos = end + 1;
        let params = self.parse_parameters(slice_subrange(self.chars.as_slice(), start, end));
        match params {
            Ok(values) => AnsiCommand::from_csi_command(cmd, values.as_slice()),
            Err(e) => Err(e),
        }
    }

    /// Reads the parameters of a CSI sequence from its parameter string.
    fn parse_parameters(&self, param_str: &[char]) -> (r: Result<Vec<usize>, ParseError>)
        ensures
            parameters_view(r) == parameters(param_str@),
    {
        let ghost s = param_str@;
        let mut params: Vec<usize> = Vec::new();
        if param_str.len() == 0 {
            return Ok(params);
        }
        let mut start: usize = 0;
        loop
            invariant
                param_str@ == s,
                start <= s.len(),
                prepend(params@, parameters_from(s, start as int)) == parameters(s),
            decreases s.len() - start,
        {
            let mut end: usize = start;
            while end < param_str.len() && param_str[end] != ';'
                invariant
                    param_str@ == s,
                    start <= end <= s.len(),
                    scan(s, start as int, separator_stop()) == scan(
                        s,
                        end as int,
                        separator_stop(),
                    ),
                decreases s.len() - end,
            {
                end = end + 1;
            }
            let value: Option<usize> = if start == end {
                Some(0)
            } else {
                parse_unsigned(param_str, start, end)
            };
            match value {
                None => {
                    let mut text = "Cannot parse parameter: ".to_owned();
                    push_range(&mut text, param_str, start, end);
                    return Err(ParseError::InvalidParameter(text));
                },
                Some(v) => {
                    let ghost earlier = params@;
                    params.push(v);
                    if end >= param_str.len() {
                        assert(params@ =~= earlier + seq![v]);
                        return Ok(params);
                    }
                    proof {
                        let rest = parameters_from(s, end + 1);
                        match rest {
                            Ok(more) => {
                                assert(params@ + more =~= earlier + (seq![v] + more));
                            },
                            Err(_) => {},
                        }
                    }
                    start = end + 1;
                },
            }
        }
    }
}

/// The number that one parameter stands for when nothing is refused: what
/// is not an unsigned decimal numeral counts as 0.
pub open spec fn lenient_value(segment: Seq<char>) -> usize {
    match unsigned_decimal(segment) {
        Some(v) => v,
        None => 0,
    }
}

/// The parameters written in `s` from index `from` on, separated by
/// semicolons, with 0 for each one that is not a number.
pub open spec fn lenient_parameters_from(s: Seq<char>, from: int) -> Seq<usize>
    decreases s.len() - from,
{
    if from < 0 || from > s.len() {
        Seq::empty()
    } else {
        let end = scan(s, from, separator_stop());
        let v = lenient_value(s.subrange(from, end));
        if end >= s.len() {
            seq![v]
        } else {
            proof {
                lemma_scan(s, from, separator_stop());
            }
            seq![v] + lenient_parameters_from(s, end + 1)
        }
    }
}

/// The parameters of a CSI sequence when nothing is refused: none for an
/// empty parameter string, otherwise one for each part between semicolons.
pub open spec fn lenient_parameters(s: Seq<char>) -> Seq<usize> {
    if s.len() == 0 {
        Seq::empty()
    } else {
        lenient_parameters_from(s, 0)
    }
}

/// The command that `rest`, the input behind a CSI introducer, starts with,
/// read leniently: parameters that are not numbers count as 0. There is
/// none if the input ends before a final character, or if the final
/// character or the parameters select no command.
pub open spec fn lenient_command(rest: Seq<char>) -> Option<AnsiCommand> {
    let end = scan(rest, 0, final_stop());
    if end < rest.len() {
        match csi_command(rest[end], lenient_parameters(rest.take(end))) {
            Ok(command) => Some(command),
            Err(_) => None,
        }
    } else {
        None
    }
}

/// Reads the parameters of a CSI sequence from its parameter string, with 0
/// for each one that is not a number.
fn parse_parameters_lenient(param_str: &[char]) -> (params: Vec<usize>)
    ensures
        params@ == lenient_parameters(param_str@),
{
    let ghost s = param_str@;
    let mut params: Vec<usize> = Vec::new();
    if param_str.len() == 0 {
        return params;
    }
    let mut start: usize = 0;
    loop
        invariant
            param_str@ == s,
            start <= s.len(),
            params@ + lenient_parameters_from(s, start as int) == lenient_parameters(s),
        decreases s.len() - start,
    {
        let mut end: usize = start;
        while end < param_str.len() && param_str[end] != ';'
            invariant
                param_str@ == s,
                start <= end <= s.len(),
                scan(s, start as int, separator_stop()) == scan(s, end as int, separator_stop()),
            decreases s.len() - end,
        {
            end = end + 1;
        }
        let v: usize = match parse_unsigned(param_str, start, end) {
            Some(v) => v,
            None => 0,
        };
        params.push(v);
        if end >= param_str.len() {
            return params;
        }
        start = end + 1;
    }
}

/// Reads the CSI sequence that `rest`, the input behind a CSI introducer,
/// starts with, leniently: parameters that are not numbers count as 0.
/// Returns the command, if there is one, and the number of characters that
/// the sequence takes: up to and including the first final character, or
/// all of `rest` if there is none.
pub fn read_escape_sequence(rest: &[char]) -> (r: (Option<AnsiCommand>, usize))
    ensures
        r.0 == lenient_command(rest@),
        r.1 == csi_end(rest@, 0),
{
    let mut end: usize = 0;
    while end < rest.len() && !closes_csi(rest[end])
        invariant
            end <= rest@.len(),
            scan(rest@, 0, final_stop()) == scan(rest@, end as int, final_stop()),
        decreases rest@.len() - end,
    {
        end = end + 1;
    }
    if end >= rest.len() {
        return (None, rest.len());
    }
    let params = parse_parameters_lenient(slice_subrange(rest, 0, end));
    match AnsiCommand::from_csi_command(rest[end], params.as_slice()) {
        Ok(command) => (Some(command), end + 1),
        Err(_) => (None, end + 1),
    }
}

/// Reads a CSI sequence from behind its introducer, leniently: the
/// characters up to and including the first final character are taken from
/// `chars`, all of them if there is none, and parameters that are not
/// numbers count as 0.
///
/// The iterator has to be known to end, as the one that `str::chars` gives
/// is, also after characters were taken from it.
pub fn parse_escape_sequence(chars: &mut std::str::Chars) -> (r: Option<AnsiCommand>)
    requires
        (*old(chars)).decrease() is Some,
    ensures
        (*final(chars)).decrease() is Some,
        r == lenient_command((*old(chars)).remaining()),
        (*final(chars)).remaining() == (*old(chars)).remaining().skip(
            csi_end((*old(chars)).remaining(), 0),
        ),
{
    broadcast use vstd::string::next_postcondition;

    let ghost rest = (*chars).remaining();
    let mut param_str: Vec<char> = Vec::new();
    let mut command_char: Option<char> = None;
    loop
        invariant_except_break
            command_char is None,
            param_str@.len() <= rest.len(),
            param_str@ == rest.take(param_str@.len() as int),
            (*chars).remaining() == rest.skip(param_str@.len() as int),
            scan(rest, 0, final_stop()) == scan(rest, param_str@.len() as int, final_stop()),
        invariant
            (*chars).decrease() is Some,
        ensures
            param_str@.len() == scan(rest, 0, final_stop()),
            param_str@ == rest.take(param_str@.len() as int),
            (*chars).remaining() == rest.skip(csi_end(rest, 0)),
            command_char == if param_str@.len() < rest.len() {
                Some(rest[param_str@.len() as int])
            } else {
                None
            },
        decreases (*chars).decrease()->0,
    {
        match chars.next() {
            None => {
                break ;
            },
            Some(ch) => {
                if closes_csi(ch) {
                    command_char = Some(ch);
                    break ;
                }
                param_str.push(ch);
            },
        }
    }
    match command_char {
        None => None,
        Some(cmd) => {
            let params = parse_parameters_lenient(param_str.as_slice());
            match AnsiCommand::from_csi_command(cmd, params.as_slice()) {
                Ok(command) => Some(command),
                Err(_) => None,
            }
        },
    }
}

} // verus!
