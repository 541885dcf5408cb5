//! How the bot writes its answers.

use crate::bot::command::Command;
use crate::bot::markdown::{blockquote, escape, escaped, link, linked, quoted};
use crate::bot::user::BotUser;
use crate::text::{
    decimal, decimal_text, join, joined, push_decimal, signed_decimal, signed_decimal_text, texts,
};
use crate::transcript::data::Episode;
use vstd::prelude::*;
use vstd::string::*;

verus! {

/// A place in an episode where a search matched: from when to when, in
/// seconds, and the words around the match.
#[derive(Clone, Debug, PartialEq, Eq)]
pub struct SearchMatch {
    pub from: u64,
    pub to: u64,
    pub hint: String,
}

/// The address of an episode's page.
pub open spec fn episode_url_spec(id: u32) -> Seq<char> {
    "https://www.spreaker.com/episode/"@ + decimal(id as nat)
}

/// The address of the page of episode `id`.
pub fn episode_url(id: u32) -> (url: String)
    ensures
        url@ == episode_url_spec(id),
{
    let mut url = String::from_str("https://www.spreaker.com/episode/");
    push_decimal(&mut url, id as u64);
    url
}

/// The link to an episode's page, with the escaped title as its text.
pub open spec fn episode_link_spec(id: u32, title: Seq<char>) -> Seq<char> {
    linked(episode_url_spec(id), escaped(title))
}

/// The link to an episode's page.
pub fn episode_link(episode: &Episode) -> (text: String)
    ensures
        text@ == episode_link_spec(episode.id, episode.title@),
{
    let url = episode_url(episode.id);
    let title = escape(episode.title.as_str());
    link(url.as_str(), title.as_str())
}

/// The line of one episode in a list: its escaped id, a colon, and the link.
pub open spec fn episode_line_spec(id: u32, title: Seq<char>) -> Seq<char> {
    escaped(decimal(id as nat)) + ": "@ + episode_link_spec(id, title)
}

/// The line of one episode in a list of results.
pub fn episode_line(episode: &Episode) -> (line: String)
    ensures
        line@ == episode_line_spec(episode.id, episode.title@),
{
    let id = decimal_text(episode.id as u64);
    let mut line = escape(id.as_str());
    line.append(": ");
    let link = episode_link(episode);
    line.append(link.as_str());
    line
}

/// The lines of a list of episodes.
pub open spec fn episode_lines_spec(episodes: Seq<Episode>) -> Seq<Seq<char>> {
    episodes.map_values(|e: Episode| episode_line_spec(e.id, e.title@))
}

/// The lines of a list of episodes, in their order.
pub fn episode_lines(episodes: &Vec<Episode>) -> (lines: Vec<String>)
    ensures
        texts(lines@) == episode_lines_spec(episodes@),
{
    let mut lines: Vec<String> = Vec::new();
    let mut i: usize = 0;
    while i < episodes.len()
        invariant
            i <= episodes.len(),
            lines@.len() == i,
            forall|j: int|
                0 <= j < i ==> (#[trigger] lines@[j])@ == episode_line_spec(
                    episodes@[j].id,
                    episodes@[j].title@,
                ),
        decreases episodes.len() - i,
    {
        lines.push(episode_line(&episodes[i]));
        i = i + 1;
    }
    assert(texts(lines@) =~= episode_lines_spec(episodes@));
    lines
}

/// The answer to a search by title: one line for each episode.
pub open spec fn search_response_spec(episodes: Seq<Episode>) -> Seq<char> {
    joined(episode_lines_spec(episodes), "\n"@)
}

/// The answer to a search by title.
pub fn search_response(episodes: &Vec<Episode>) -> (text: String)
    ensures
        text@ == search_response_spec(episodes@),
{
    let lines = episode_lines(episodes);
    join(&lines, "\n")
}

/// The answer to a search in all transcripts: a heading, then one line for
/// each episode.
pub open spec fn advanced_response_spec(episodes: Seq<Episode>) -> Seq<char> {
    escaped("Found episodes:"@) + "\n"@ + search_response_spec(episodes)
}

/// The answer to a search in all transcripts.
pub fn advanced_response(episodes: &Vec<Episode>) -> (text: String)
    ensures
        text@ == advanced_response_spec(episodes@),
{
    let mut text = escape("Found episodes:");
    text.append("\n");
    let list = search_response(episodes);
    text.append(list.as_str());
    text
}

/// `n` in decimal, with a zero before a single digit.
pub open spec fn two_digits_spec(n: nat) -> Seq<char> {
    if n < 10 {
        seq!['0'] + decimal(n)
    } else {
        decimal(n)
    }
}

/// Appends `n` with at least two digits.
fn push_two_digits(out: &mut String, n: u64)
    ensures
        final(out)@ == old(out)@ + two_digits_spec(n as nat),
{
    if n < 10 {
        proof {
            reveal_strlit("0");
            assert("0"@ =~= seq!['0']);
        }
        out.append("0");
        push_decimal(out, n);
        assert(out@ =~= old(out)@ + (seq!['0'] + decimal(n as nat)));
    } else {
        push_decimal(out, n);
    }
}

/// A time in seconds as minutes and seconds, each with at least two digits.
pub open spec fn clock_spec(secs: nat) -> Seq<char> {
    two_digits_spec(secs / 60) + ":"@ + two_digits_spec(secs % 60)
}

/// Appends a time as minutes and seconds.
fn push_clock(out: &mut String, secs: u64)
    ensures
        final(out)@ == old(out)@ + clock_spec(secs as nat),
{
    push_two_digits(out, secs / 60);
    out.append(":");
    push_two_digits(out, secs % 60);
    assert(out@ =~= old(out)@ + (two_digits_spec((secs / 60) as nat) + ":"@ + two_digits_spec(
        (secs % 60) as nat,
    )));
}

/// A span of time: where it begins, a dash, where it ends.
pub open spec fn time_range_spec(from: nat, to: nat) -> Seq<char> {
    clock_spec(from) + " - "@ + clock_spec(to)
}

/// The span from `from` to `to`, both in seconds.
pub fn time_range(from: u64, to: u64) -> (text: String)
    ensures
        text@ == time_range_spec(from as nat, to as nat),
{
    let mut text = String::new();
    push_clock(&mut text, from);
    text.append(" - ");
    push_clock(&mut text, to);
    assert(text@ =~= time_range_spec(from as nat, to as nat));
    text
}

/// The block of one match: its escaped span of time, and below it, as a
/// quotation, its escaped hint between dots.
pub open spec fn match_block_spec(from: nat, to: nat, hint: Seq<char>) -> Seq<char> {
    escaped(time_range_spec(from, to)) + "\n"@ + quoted(escaped("..."@ + hint + "..."@))
}

/// The block of one match.
pub fn match_block(found: &SearchMatch) -> (block: String)
    ensures
        block@ == match_block_spec(found.from as nat, found.to as nat, found.hint@),
{
    let range = time_range(found.from, found.to);
    let mut block = escape(range.as_str());
    block.append("\n");
    let mut hint = String::from_str("...");
    hint.append(found.hint.as_str());
    hint.append("...");
    let hint = escape(hint.as_str());
    let quote = blockquote(hint.as_str());
    block.append(quote.as_str());
    block
}

/// The blocks of a list of matches.
pub open spec fn match_blocks_spec(matches: Seq<SearchMatch>) -> Seq<Seq<char>> {
    matches.map_values(|m: SearchMatch| match_block_spec(m.from as nat, m.to as nat, m.hint@))
}

/// The answer to a search in one episode: a heading with the link to the
/// episode, then the blocks of the matches with a blank line between each
/// two.
pub open spec fn matches_response_spec(
    id: u32,
    title: Seq<char>,
    matches: Seq<SearchMatch>,
) -> Seq<char> {
    escaped("Risultati per "@) + episode_link_spec(id, title) + "\n"@ + joined(
        match_blocks_spec(matches),
        "\n\n"@,
    )
}

/// The answer to a search in the transcript of `episode`.
pub fn matches_response(episode: &Episode, matches: &Vec<SearchMatch>) -> (text: String)
    ensures
        text@ == matches_response_spec(episode.id, episode.title@, matches@),
{
    let mut blocks: Vec<String> = Vec::new();
    let mut i: usize = 0;
    while i < matches.len()
        invariant
            i <= matches.len(),
            blocks@.len() == i,
            forall|j: int|
                0 <= j < i ==> (#[trigger] blocks@[j])@ == match_block_spec(
                    matches@[j].from as nat,
                    matches@[j].to as nat,
                    matches@[j].hint@,
                ),
        decreases matches.len() - i,
    {
        blocks.push(match_block(&matches[i]));
        i = i + 1;
    }
    assert(texts(blocks@) =~= match_blocks_spec(matches@));
    let mut text = escape("Risultati per ");
    let link = episode_link(episode);
    text.append(link.as_str());
    text.append("\n");
    let list = join(&blocks, "\n\n");
    text.append(list.as_str());
    text
}

/// The line of one user in a list: the name, and in escaped parentheses a
/// link that accepts the user into the beta, with the id as its text.
pub open spec fn user_line_spec(user: BotUser) -> Seq<char> {
    user.name_spec() + " \\("@ + linked(
        "tg://bot_command?command=betaaccept "@ + signed_decimal(user.id as int),
        signed_decimal(user.id as int),
    ) + "\\)"@
}

/// The line of one user in a list of users.
pub fn user_line(user: &BotUser) -> (line: String)
    ensures
        line@ == user_line_spec(*user),
{
    let id = signed_decimal_text(user.id);
    let mut url = String::from_str("tg://bot_command?command=betaaccept ");
    url.append(id.as_str());
    let link = link(url.as_str(), id.as_str());
    let mut line = user.user_or_name();
    line.append(" \\(");
    line.append(link.as_str());
    line.append("\\)");
    line
}

/// The lines of a list of users.
pub open spec fn user_lines_spec(users: Seq<BotUser>) -> Seq<Seq<char>> {
    users.map_values(|u: BotUser| user_line_spec(u))
}

/// The heading of a list of users: the command, and in parentheses how many
/// users follow, then a colon.
pub open spec fn users_heading_spec(command: Command, count: nat) -> Seq<char> {
    command.text_spec() + " ("@ + decimal(count) + "):"@
}

/// The answer to a command that lists users: the escaped heading, then one
/// line for each user.
pub open spec fn users_response_spec(command: Command, users: Seq<BotUser>) -> Seq<char> {
    escaped(users_heading_spec(command, users.len())) + "\n"@ + joined(
        user_lines_spec(users),
        "\n"@,
    )
}

/// The answer to `command`, which asked for the list `users`.
pub fn users_response(command: &Command, users: &Vec<BotUser>) -> (text: String)
    ensures
        text@ == users_response_spec(*command, users@),
{
    let mut heading = command.text();
    heading.append(" (");
    push_decimal(&mut heading, users.len() as u64);
    heading.append("):");
    let mut lines: Vec<String> = Vec::new();
    let mut i: usize = 0;
    while i < users.len()
        invariant
            i <= users.len(),
            lines@.len() == i,
            forall|j: int| 0 <= j < i ==> (#[trigger] lines@[j])@ == user_line_spec(users@[j]),
        decreases users.len() - i,
    {
        lines.push(user_line(&users[i]));
        i = i + 1;
    }
    assert(texts(lines@) =~= user_lines_spec(users@));
    let mut text = escape(heading.as_str());
    text.append("\n");
    let list = join(&lines, "\n");
    text.append(list.as_str());
    text
}

} // verus!
