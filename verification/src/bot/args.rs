//! The arguments of a command: words, or phrases in double quotes.

use crate::text::texts;
use vstd::prelude::*;
use vstd::string::*;

verus! {

/// The pattern of one argument: a phrase in double quotes (group 2), a word
/// that ends in a double quote (group 3), or a word (group 4).
pub const QUOTED_ARGS: &'static str = "(\"([^\"]+)\"|(\\S+)\")|(\\S+)";

/// For each match of `pattern` in `text`, from left to right, the text of
/// each of its groups, group 0 first; a group that took no part in the match
/// has none. `None` where `pattern` is no regular expression that the regex
/// crate builds.
pub uninterp spec fn captures_of(pattern: Seq<char>, text: Seq<char>) -> Option<
    Seq<Seq<Option<Seq<char>>>>,
>;

/// The text of a group, if it has one.
pub open spec fn group_text(group: Option<String>) -> Option<Seq<char>> {
    match group {
        Some(s) => Some(s@),
        None => None,
    }
}

/// The texts of the groups of each match.
pub open spec fn captures_view(found: Seq<Vec<Option<String>>>) -> Seq<Seq<Option<Seq<char>>>> {
    found.map_values(|groups: Vec<Option<String>>| groups@.map_values(|g| group_text(g)))
}

/// The regex crate's `Regex::new` and `Regex::captures_iter`, with each
/// group of each match copied out through `Captures::iter` and
/// `Match::as_str`. What comes back is named `captures_of` the pattern and
/// the text; nothing more is claimed of it.
#[verifier::external_body]
fn captures(pattern: &str, text: &str) -> (found: Option<Vec<Vec<Option<String>>>>)
    ensures
        match found {
            Some(v) => captures_of(pattern@, text@) == Some(captures_view(v@)),
            None => captures_of(pattern@, text@) is None,
        },
{
    let re = regex::Regex::new(pattern).ok()?;
    Some(
        re.captures_iter(text).map(
            |c| c.iter().map(|g| g.map(|m| m.as_str().to_owned())).collect(),
        ).collect(),
    )
}

/// The group `index` of a match, if the match has such a group and it took
/// part.
pub open spec fn group(groups: Seq<Option<Seq<char>>>, index: int) -> Option<Seq<char>> {
    if 0 <= index < groups.len() {
        groups[index]
    } else {
        None
    }
}

/// The argument that a match stands for: the phrase between the quotes, or
/// else the word.
pub open spec fn chosen(groups: Seq<Option<Seq<char>>>) -> Option<Seq<char>> {
    if group(groups, 2) is Some {
        group(groups, 2)
    } else {
        group(groups, 4)
    }
}

/// The arguments that the matches stand for, in their order; none at all
/// where a match stands for no argument.
pub open spec fn args_of(found: Seq<Seq<Option<Seq<char>>>>) -> Option<Seq<Seq<char>>> {
    if forall|i: int| 0 <= i < found.len() ==> (#[trigger] chosen(found[i])) is Some {
        Some(Seq::new(found.len(), |i: int| chosen(found[i])->0))
    } else {
        None
    }
}

/// The arguments of `text`.
pub open spec fn split_quoted_args_spec(text: Seq<char>) -> Option<Seq<Seq<char>>> {
    match captures_of(QUOTED_ARGS@, text) {
        Some(found) => args_of(found),
        None => None,
    }
}

/// The texts of a list of strings that may be missing.
pub open spec fn texts_of(list: Option<Vec<String>>) -> Option<Seq<Seq<char>>> {
    match list {
        Some(v) => Some(texts(v@)),
        None => None,
    }
}

/// Copies group `index` of a match, if there is one with a text.
fn group_at(groups: &Vec<Option<String>>, index: usize) -> (text: Option<String>)
    ensures
        group_text(text) == group(groups@.map_values(|g| group_text(g)), index as int),
{
    if index < groups.len() {
        match &groups[index] {
            Some(s) => Some(s.clone()),
            None => None,
        }
    } else {
        None
    }
}

/// Picks the argument out of each match: the phrase between the quotes, or
/// else the word. Where a match has neither, there are no arguments.
pub fn args_from_captures(found: &Vec<Vec<Option<String>>>) -> (args: Option<Vec<String>>)
    ensures
        texts_of(args) == args_of(captures_view(found@)),
{
    let ghost view = captures_view(found@);
    let mut args: Vec<String> = Vec::new();
    let mut i: usize = 0;
    while i < found.len()
        invariant
            i <= found.len(),
            view == captures_view(found@),
            args@.len() == i,
            forall|j: int| 0 <= j < i ==> (#[trigger] chosen(view[j])) == Some(args@[j]@),
        decreases found.len() - i,
    {
        let groups = &found[i];
        assert(view[i as int] == groups@.map_values(|g| group_text(g)));
        let arg = match group_at(groups, 2) {
            Some(phrase) => Some(phrase),
            None => group_at(groups, 4),
        };
        match arg {
            Some(a) => {
                args.push(a);
            },
            None => {
                assert(chosen(view[i as int]) is None);
                return None;
            },
        }
        i = i + 1;
    }
    proof {
        assert forall|j: int| 0 <= j < view.len() implies (#[trigger] chosen(view[j])) is Some by {
            assert(chosen(view[j]) == Some(args@[j]@));
        }
        assert(texts(args@) =~= Seq::new(view.len(), |j: int| chosen(view[j])->0));
    }
    Some(args)
}

/// Splits the text after a command into its arguments: each phrase in double
/// quotes is one argument, without the quotes, and so is each other word.
pub fn split_quoted_args(text: &str) -> (args: Option<Vec<String>>)
    ensures
        texts_of(args) == split_quoted_args_spec(text@),
{
    match captures(QUOTED_ARGS, text) {
        Some(found) => args_from_captures(&found),
        None => None,
    }
}

} // verus!
