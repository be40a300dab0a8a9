//! Two writes leave the screen as one write of both texts does, unless the
//! first text ends within an escape sequence.

use crate::ansi::commands::TokenView;
use crate::ansi::lemmas::{lemma_scan_prefix, lemma_tokens_suffix};
use crate::ansi::parser::{
    csi_starts, final_stop, is_plain, lemma_scan, lemma_token_end, scan, text_stop, token_at,
    token_end, tokens_from, ESCAPE,
};
use crate::laws::{lemma_tokens_append, lemma_tokens_single};
use crate::screen::Screen;
use vstd::prelude::*;

verus! {

/// Whether the input from index `i` on ends within an escape sequence: after
/// an escape character with nothing behind it, or in a CSI sequence before
/// its final character.
pub open spec fn ends_in_escape(a: Seq<char>, i: int) -> bool
    decreases a.len() - i,
{
    if i < 0 || i >= a.len() {
        false
    } else if csi_starts(a, i) {
        let end = scan(a, i + 2, final_stop());
        if end < a.len() {
            proof {
                lemma_scan(a, i + 2, final_stop());
            }
            ends_in_escape(a, end + 1)
        } else {
            true
        }
    } else if a[i] == ESCAPE {
        if i + 1 < a.len() {
            ends_in_escape(a, i + 2)
        } else {
            true
        }
    } else {
        proof {
            lemma_token_end(a, i);
        }
        ends_in_escape(a, token_end(a, i))
    }
}

/// Whether every escape sequence that the input starts is complete.
pub open spec fn complete(a: Seq<char>) -> bool {
    !ends_in_escape(a, 0)
}

/// Printing two texts one after the other is printing both as one.
pub proof fn lemma_put_all_append(s: Screen, first: Seq<char>, second: Seq<char>)
    ensures
        s.put_all(first + second) == s.put_all(first).put_all(second),
    decreases second.len(),
{
    if second.len() > 0 {
        lemma_put_all_append(s, first, second.drop_last());
        assert((first + second).drop_last() =~= first + second.drop_last());
    }
}

/// Acting on a token and then on more tokens is acting on all of them in turn.
pub proof fn lemma_tokens_first(s: Screen, first: TokenView, more: Seq<TokenView>)
    ensures
        s.tokens(seq![first] + more) == s.token(first).tokens(more),
{
    lemma_tokens_append(s, seq![first], more);
    lemma_tokens_single(s, first);
}

/// From any index of input that does not end within an escape sequence,
/// acting on the tokens of the input and of what follows it, as one text,
/// is acting on the tokens of the input and then writing what follows.
pub proof fn lemma_tokens_split(s: Screen, a: Seq<char>, b: Seq<char>, i: int)
    requires
        0 <= i <= a.len(),
        !ends_in_escape(a, i),
    ensures
        s.tokens(tokens_from(a + b, i)) == s.tokens(tokens_from(a, i)).write(b),
    decreases a.len() - i,
{
    let ab = a + b;
    let n = a.len() as int;
    if i == n {
        lemma_tokens_suffix(a, b, 0);
    } else {
        lemma_token_end(a, i);
        lemma_token_end(ab, i);
        if csi_starts(a, i) {
            let end = scan(a, i + 2, final_stop());
            lemma_scan(a, i + 2, final_stop());
            lemma_scan_prefix(a, b, i + 2, final_stop());
            assert(ab.subrange(i + 2, end) =~= a.subrange(i + 2, end));
            lemma_tokens_first(s, token_at(a, i), tokens_from(ab, end + 1));
            lemma_tokens_first(s, token_at(a, i), tokens_from(a, end + 1));
            lemma_tokens_split(s.token(token_at(a, i)), a, b, end + 1);
        } else if a[i] == ESCAPE {
            lemma_tokens_first(s, token_at(a, i), tokens_from(ab, i + 2));
            lemma_tokens_first(s, token_at(a, i), tokens_from(a, i + 2));
            lemma_tokens_split(s.token(token_at(a, i)), a, b, i + 2);
        } else if !is_plain(a[i]) {
            lemma_tokens_first(s, token_at(a, i), tokens_from(ab, i + 1));
            lemma_tokens_first(s, token_at(a, i), tokens_from(a, i + 1));
            lemma_tokens_split(s.token(token_at(a, i)), a, b, i + 1);
        } else {
            let end = scan(a, i + 1, text_stop());
            lemma_scan(a, i + 1, text_stop());
            lemma_scan_prefix(a, b, i + 1, text_stop());
            if end < n {
                assert(ab.subrange(i, end) =~= a.subrange(i, end));
                lemma_tokens_first(s, token_at(a, i), tokens_from(ab, end));
                lemma_tokens_first(s, token_at(a, i), tokens_from(a, end));
                lemma_tokens_split(s.token(token_at(a, i)), a, b, end);
            } else {
                let k = scan(b, 0, text_stop());
                lemma_scan(b, 0, text_stop());
                let head = a.subrange(i, n);
                let tail = b.subrange(0, k);
                assert(ab.subrange(i, n + k) =~= head + tail);
                lemma_tokens_suffix(a, b, k);
                lemma_tokens_first(s, TokenView::Text(head + tail), tokens_from(b, k));
                lemma_tokens_first(s, TokenView::Text(head), tokens_from(a, n));
                lemma_put_all_append(s, head, tail);
                let printed = s.put_all(head);
                if k > 0 {
                    lemma_token_end(b, 0);
                    lemma_tokens_first(printed, TokenView::Text(tail), tokens_from(b, k));
                }
            }
        }
    }
}

/// Two writes one after the other leave the screen as one write of both
/// texts does, as long as the first text does not end within an escape sequence.
pub proof fn lemma_write_split(s: Screen, a: Seq<char>, b: Seq<char>)
    requires
        complete(a),
    ensures
        s.write(a + b) == s.write(a).write(b),
{
    lemma_tokens_split(s, a, b, 0);
}

} // verus!
