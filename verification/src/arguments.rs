//! Argument strings: split at ASCII white space into the tokens that a
//! process receives, and never read by a shell.

use vstd::prelude::*;
use crate::text::{chars_of, slice_of, string_of, string_views};

verus! {

/// Whether a character is ASCII white space: space, tab, line feed, form
/// feed or carriage return.
pub open spec fn is_ascii_space(c: char) -> bool {
    c == ' ' || c == '\t' || c == '\n' || c == '\x0C' || c == '\r'
}

/// The first position at or after `from` that holds no white space, or the
/// length of `s`.
pub open spec fn token_start(s: Seq<char>, from: int) -> int
    decreases s.len() - from,
{
    if from < 0 || from >= s.len() {
        s.len() as int
    } else if !is_ascii_space(s[from]) {
        from
    } else {
        token_start(s, from + 1)
    }
}

/// The first position at or after `from` that holds white space, or the
/// length of `s`.
pub open spec fn token_end(s: Seq<char>, from: int) -> int
    decreases s.len() - from,
{
    if from < 0 || from >= s.len() {
        s.len() as int
    } else if is_ascii_space(s[from]) {
        from
    } else {
        token_end(s, from + 1)
    }
}

/// The tokens of `s` that begin at or after `from`.
pub open spec fn tokens_from(s: Seq<char>, from: int) -> Seq<Seq<char>>
    decreases s.len() - from,
{
    let start = token_start(s, from);
    if from < 0 || start < from || start >= s.len() {
        Seq::empty()
    } else {
        let end = token_end(s, start);
        if start < end <= s.len() {
            seq![s.subrange(start, end)] + tokens_from(s, end)
        } else {
            Seq::empty()
        }
    }
}

/// The tokens of an argument string: its maximal runs of characters that
/// are not ASCII white space, in order.
pub open spec fn tokens_of(s: Seq<char>) -> Seq<Seq<char>> {
    tokens_from(s, 0)
}

/// Whether a text is a token: not empty, and free of white space.
pub open spec fn is_token(t: Seq<char>) -> bool {
    t.len() > 0 && forall|i: int| 0 <= i < t.len() ==> !is_ascii_space(#[trigger] t[i])
}

/// `token_start` lies between `from` and the end, passes over white space
/// only, and stops at a character that is none.
pub proof fn lemma_token_start(s: Seq<char>, from: int)
    requires
        0 <= from <= s.len(),
    ensures
        from <= token_start(s, from) <= s.len(),
        token_start(s, from) < s.len() ==> !is_ascii_space(s[token_start(s, from)]),
        forall|j: int| from <= j < token_start(s, from) ==> is_ascii_space(s[j]),
    decreases s.len() - from,
{
    if from < s.len() && is_ascii_space(s[from]) {
        lemma_token_start(s, from + 1);
    }
}

/// `token_end` lies between `from` and the end, passes over no white space,
/// and stops at white space.
pub proof fn lemma_token_end(s: Seq<char>, from: int)
    requires
        0 <= from <= s.len(),
    ensures
        from <= token_end(s, from) <= s.len(),
        token_end(s, from) < s.len() ==> is_ascii_space(s[token_end(s, from)]),
        forall|j: int| from <= j < token_end(s, from) ==> !is_ascii_space(s[j]),
    decreases s.len() - from,
{
    if from < s.len() && !is_ascii_space(s[from]) {
        lemma_token_end(s, from + 1);
    }
}

/// Every token of an argument string is a token: none is empty, and none
/// holds white space, however much white space separates them.
pub proof fn lemma_tokens_are_tokens(s: Seq<char>, from: int)
    requires
        0 <= from <= s.len(),
    ensures
        forall|k: int| 0 <= k < tokens_from(s, from).len() ==> is_token(#[trigger] tokens_from(s, from)[k]),
    decreases s.len() - from,
{
    lemma_token_start(s, from);
    let start = token_start(s, from);
    if start < s.len() {
        lemma_token_end(s, start);
        let end = token_end(s, start);
        if start < end {
            lemma_tokens_are_tokens(s, end);
            let head = s.subrange(start, end);
            assert(is_token(head)) by {
                assert forall|i: int| 0 <= i < head.len() implies !is_ascii_space(#[trigger] head[i]) by {
                    assert(head[i] == s[start + i]);
                }
            }
            let rest = tokens_from(s, end);
            assert forall|k: int| 0 <= k < tokens_from(s, from).len() implies is_token(
                #[trigger] tokens_from(s, from)[k],
            ) by {
                if k > 0 {
                    assert(tokens_from(s, from)[k] == rest[k - 1]);
                }
            }
        }
    }
}

/// A text made of white space alone has no tokens.
pub proof fn lemma_blank_has_no_tokens(s: Seq<char>)
    requires
        forall|i: int| 0 <= i < s.len() ==> is_ascii_space(#[trigger] s[i]),
    ensures
        tokens_of(s).len() == 0,
{
    lemma_token_start(s, 0);
}

/// Whether a character is ASCII white space.
pub fn is_space(c: char) -> (r: bool)
    ensures
        r == is_ascii_space(c),
{
    c == ' ' || c == '\t' || c == '\n' || c == '\x0C' || c == '\r'
}

/// Splits an argument string at ASCII white space. Runs of white space
/// count as one separator, and white space at either end is dropped, so no
/// token is empty.
pub fn split_arguments(arguments: &str) -> (tokens: Vec<String>)
    ensures
        string_views(tokens@) == tokens_of(arguments@),
        forall|k: int| 0 <= k < tokens@.len() ==> is_token(#[trigger] tokens@[k]@),
{
    let s = chars_of(arguments);
    let mut tokens: Vec<String> = Vec::new();
    let mut from: usize = 0;
    assert(string_views(tokens@) + tokens_from(s@, 0) == tokens_of(s@));
    loop
        invariant
            from <= s.len(),
            s@ == arguments@,
            string_views(tokens@) + tokens_from(s@, from as int) == tokens_of(s@),
        ensures
            string_views(tokens@) == tokens_of(s@),
        decreases s.len() - from,
    {
        let mut start: usize = from;
        while start < s.len() && is_space(s[start])
            invariant
                from <= start <= s.len(),
                token_start(s@, start as int) == token_start(s@, from as int),
            decreases s.len() - start,
        {
            start += 1;
        }
        if start >= s.len() {
            assert(tokens_from(s@, from as int) == Seq::<Seq<char>>::empty());
            break;
        }
        let mut end: usize = start;
        while end < s.len() && !is_space(s[end])
            invariant
                start <= end <= s.len(),
                token_end(s@, end as int) == token_end(s@, start as int),
            decreases s.len() - end,
        {
            end += 1;
        }
        let token = slice_of(&s, start, end);
        let ghost before = string_views(tokens@);
        let text = string_of(&token);
        tokens.push(text);
        assert(string_views(tokens@) == before + seq![token@]);
        assert(before + (seq![token@] + tokens_from(s@, end as int)) == (before + seq![token@])
            + tokens_from(s@, end as int));
        from = end;
    }
    proof {
        lemma_tokens_are_tokens(arguments@, 0);
        assert forall|k: int| 0 <= k < tokens@.len() implies is_token(#[trigger] tokens@[k]@) by {
            assert(tokens@[k]@ == string_views(tokens@)[k]);
            assert(is_token(tokens_from(arguments@, 0)[k]));
        }
    }
    tokens
}

} // verus!
