//! Telegram's MarkdownV2, as teloxide writes it.

use vstd::prelude::*;
use vstd::string::*;

verus! {

/// Whether MarkdownV2 gives `c` a meaning, so that it must be escaped to be
/// shown as it is.
pub open spec fn is_reserved(c: char) -> bool {
    c == '_' || c == '*' || c == '[' || c == ']' || c == '(' || c == ')' || c == '~' || c == '`'
        || c == '>' || c == '#' || c == '+' || c == '-' || c == '=' || c == '|' || c == '{' || c
        == '}' || c == '.' || c == '!'
}

/// `s` with a backslash before each reserved character.
pub open spec fn escaped(s: Seq<char>) -> Seq<char>
    decreases s.len(),
{
    if s.len() == 0 {
        Seq::empty()
    } else if is_reserved(s.last()) {
        escaped(s.drop_last()).push('\\').push(s.last())
    } else {
        escaped(s.drop_last()).push(s.last())
    }
}

/// `s` with a backslash before each backtick and each closing parenthesis.
pub open spec fn escaped_url(s: Seq<char>) -> Seq<char>
    decreases s.len(),
{
    if s.len() == 0 {
        Seq::empty()
    } else if s.last() == '`' || s.last() == ')' {
        escaped_url(s.drop_last()).push('\\').push(s.last())
    } else {
        escaped_url(s.drop_last()).push(s.last())
    }
}

/// An inline link: the text in square brackets, then the escaped URL in
/// parentheses.
pub open spec fn linked(url: Seq<char>, text: Seq<char>) -> Seq<char> {
    seq!['['] + text + seq![']', '('] + escaped_url(url) + seq![')']
}

/// A block quotation: `s` after a greater-than sign.
pub open spec fn quoted(s: Seq<char>) -> Seq<char> {
    seq!['>'] + s
}

/// teloxide's `utils::markdown::escape`. It walks over the characters of
/// `s` and puts a backslash before each of the eighteen reserved ones; the
/// contract says exactly that.
#[verifier::external_body]
pub(crate) fn escape(s: &str) -> (out: String)
    ensures
        out@ == escaped(s@),
{
    teloxide::utils::markdown::escape(s)
}

/// teloxide's `utils::markdown::link`. It writes the text in square
/// brackets and, in parentheses, the URL with a backslash before each
/// backtick and closing parenthesis; the text is taken as it is.
#[verifier::external_body]
pub(crate) fn link(url: &str, text: &str) -> (out: String)
    ensures
        out@ == linked(url@, text@),
{
    teloxide::utils::markdown::link(url, text)
}

/// teloxide's `utils::markdown::blockquote`. It puts a greater-than sign
/// before `s`, which is taken as it is.
#[verifier::external_body]
pub(crate) fn blockquote(s: &str) -> (out: String)
    ensures
        out@ == quoted(s@),
{
    teloxide::utils::markdown::blockquote(s)
}

} // verus!
