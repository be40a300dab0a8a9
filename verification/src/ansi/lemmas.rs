//! Lemmas about tokenization: a token depends on nothing before it, and a
//! line of plain text with its line feed is tokenized by itself.

use crate::ansi::commands::{ControlChar, TokenView};
use crate::ansi::parser::{
    csi_starts, final_stop, is_plain, lemma_scan, lemma_token_end, scan, text_stop, token_at,
    token_end, tokenize, tokens_from,
};
use vstd::prelude::*;

verus! {

/// `scan` finds the index `end` if no character from `from` up to `end`
/// stops it and the character at `end` does, or `end` is the end of the string.
pub proof fn lemma_scan_finds(s: Seq<char>, from: int, end: int, stop: spec_fn(char) -> bool)
    requires
        0 <= from <= end <= s.len(),
        forall|k: int| from <= k < end ==> !stop(#[trigger] s[k]),
        end < s.len() ==> stop(s[end]),
    ensures
        scan(s, from, stop) == end,
    decreases end - from,
{
    if from < end {
        lemma_scan_finds(s, from + 1, end, stop);
    }
}

/// What stands before a position has no part in a scan from it.
pub proof fn lemma_scan_suffix(a: Seq<char>, b: Seq<char>, j: int, stop: spec_fn(char) -> bool)
    requires
        0 <= j <= b.len(),
    ensures
        scan(a + b, a.len() + j, stop) == a.len() + scan(b, j, stop),
    decreases b.len() - j,
{
    if j < b.len() {
        if !stop(b[j]) {
            lemma_scan_suffix(a, b, j + 1, stop);
        }
    }
}

/// What stands behind the place where a scan stops has no part in it, and a
/// scan that reaches the end of the string goes on in what follows.
pub proof fn lemma_scan_prefix(a: Seq<char>, b: Seq<char>, from: int, stop: spec_fn(char) -> bool)
    requires
        0 <= from <= a.len(),
    ensures
        scan(a, from, stop) < a.len() ==> scan(a + b, from, stop) == scan(a, from, stop),
        scan(a, from, stop) >= a.len() ==> scan(a + b, from, stop) == a.len() + scan(b, 0, stop),
    decreases a.len() - from,
{
    if from < a.len() {
        if !stop(a[from]) {
            lemma_scan_prefix(a, b, from + 1, stop);
        }
    } else {
        lemma_scan_suffix(a, b, 0, stop);
    }
}

/// What stands before a token has no part in it.
pub proof fn lemma_token_suffix(a: Seq<char>, b: Seq<char>, j: int)
    requires
        0 <= j < b.len(),
    ensures
        token_at(a + b, a.len() + j) == token_at(b, j),
        token_end(a + b, a.len() + j) == a.len() + token_end(b, j),
{
    let s = a + b;
    let n = a.len() as int;
    if csi_starts(b, j) {
        lemma_scan_suffix(a, b, j + 2, final_stop());
        lemma_scan(b, j + 2, final_stop());
        let end = scan(b, j + 2, final_stop());
        assert(s.subrange(n + j + 2, n + end) =~= b.subrange(j + 2, end));
    } else if is_plain(b[j]) {
        lemma_scan_suffix(a, b, j + 1, text_stop());
        lemma_scan(b, j + 1, text_stop());
        let end = scan(b, j + 1, text_stop());
        assert(s.subrange(n + j, n + end) =~= b.subrange(j, end));
    }
}

/// What stands before a position has no part in the tokens from it.
pub proof fn lemma_tokens_suffix(a: Seq<char>, b: Seq<char>, j: int)
    requires
        0 <= j <= b.len(),
    ensures
        tokens_from(a + b, a.len() + j) == tokens_from(b, j),
    decreases b.len() - j,
{
    if j < b.len() {
        lemma_token_suffix(a, b, j);
        lemma_token_end(b, j);
        lemma_tokens_suffix(a, b, token_end(b, j));
    }
}

/// The tokens of one line of plain text and the line feed behind it: the
/// text, unless the line is empty, and the line feed.
pub open spec fn line_tokens(line: Seq<char>) -> Seq<TokenView> {
    if line.len() > 0 {
        seq![TokenView::Text(line), TokenView::ControlChar(ControlChar::LineFeed)]
    } else {
        seq![TokenView::ControlChar(ControlChar::LineFeed)]
    }
}

/// Whether every character of `text` is printed as it is.
pub open spec fn plain_text(text: Seq<char>) -> bool {
    forall|j: int| 0 <= j < text.len() ==> is_plain(#[trigger] text[j])
}

/// Input that starts with a line of plain text and a line feed has the
/// line's tokens first, and then the tokens of what follows.
pub proof fn lemma_tokenize_line(line: Seq<char>, rest: Seq<char>)
    requires
        plain_text(line),
    ensures
        tokenize(line + seq!['\n'] + rest) == line_tokens(line) + tokenize(rest),
{
    let head = line + seq!['\n'];
    let s = head + rest;
    let n = line.len() as int;
    lemma_tokens_suffix(head, rest, 0);
    assert(tokens_from(s, n) =~= seq![TokenView::ControlChar(ControlChar::LineFeed)] + tokenize(
        rest,
    ));
    if n > 0 {
        lemma_scan_finds(s, 1, n, text_stop());
        assert(s.subrange(0, n) =~= line);
    }
}

} // verus!
