//! What the bot answers: the rules between a command and its reply.

use crate::bot::args::{split_quoted_args, split_quoted_args_spec};
use crate::bot::error::BotError;
use crate::bot::format::{
    advanced_response, advanced_response_spec, matches_response, matches_response_spec,
    search_response, search_response_spec, SearchMatch,
};
use crate::bot::paginate::{blocks_of, byte_len, paginate_response, paginate_spec};
use crate::bot::user::BotUser;
use crate::text::{decimal, push_decimal, push_signed_decimal, signed_decimal, texts};
use crate::transcript::data::Episode;
use vstd::prelude::*;
use vstd::string::*;

verus! {

/// The most results that are listed.
pub const MAX_RESULTS: usize = 50;

/// The fewest bytes a title search must have.
pub const MIN_QUERY: usize = 3;

pub const NOT_WHITELISTED: &'static str =
    "Ciao, mi dispiace ma il bot è attualmente in sviluppo. Grazie per l'interesse. Riceverai una notifica quando sarà pronto. Utilizza il comando /beta per richiedere ingresso in waitlist.";

pub const NOT_AUTHORIZED: &'static str = "Non sei autorizzato a fare questa richiesta";

pub const REQUEST_ERROR: &'static str = "C'è stato un errore nel processare la tua richiesta";

pub const NOTHING_TO_CANCEL: &'static str = "Non c'è nessuna interazione da annullare";

pub const QUERY_TOO_SHORT: &'static str = "La query deve essere di almeno 3 caratteri";

pub const SEARCHING: &'static str = "Searching...";

pub const SEARCHING_EPISODE: &'static str = "searching episode transcripts...";

pub const NO_MATCHES: &'static str = "No matches found";

pub const ALREADY_BETA: &'static str = "Hai già accesso alla beta!";

pub const ALREADY_REQUESTED: &'static str = "Hai già inviato una richiesta!";

pub const REQUEST_SENT: &'static str = "Richiesta di entrare in beta inviata";

pub const USER_ALREADY_IN_BETA: &'static str = "User already in beta";

pub const BETA_ACCEPTED: &'static str = "Richiesta di entrare in beta accettata!";

/// An answer: one plain message, or pages written in MarkdownV2.
#[derive(Debug)]
pub enum Answer {
    Plain(String),
    Pages(Vec<String>),
}

/// [`Answer`] as a mathematical value.
pub enum AnswerView {
    Plain(Seq<char>),
    Pages(Seq<Seq<char>>),
}

impl View for Answer {
    type V = AnswerView;

    open spec fn view(&self) -> AnswerView {
        match self {
            Answer::Plain(text) => AnswerView::Plain(text@),
            Answer::Pages(pages) => AnswerView::Pages(texts(pages@)),
        }
    }
}

/// Whether a title search is too short to be run.
pub fn query_too_short(query: &str) -> (yes: bool)
    ensures
        yes == (byte_len(query@) < MIN_QUERY),
{
    query.len() < MIN_QUERY
}

/// Whether there are more results than are listed.
pub fn too_many_results(count: usize) -> (yes: bool)
    ensures
        yes == (count > MAX_RESULTS),
{
    count > MAX_RESULTS
}

/// What is said in place of a list that is too long.
pub open spec fn too_many_spec(count: nat) -> Seq<char> {
    "Troppi risultati trovati ("@ + decimal(count) + "), per favore affina la ricerca"@
}

/// The message for `count` results, which are too many to list.
pub fn too_many_text(count: usize) -> (text: String)
    ensures
        text@ == too_many_spec(count as nat),
{
    let mut text = String::from_str("Troppi risultati trovati (");
    push_decimal(&mut text, count as u64);
    text.append("), per favore affina la ricerca");
    text
}

/// What the administrator is told when a user was accepted.
pub open spec fn accepted_spec(id: i64) -> Seq<char> {
    "User "@ + signed_decimal(id as int) + " accepted into beta"@
}

/// The message that user `id` was accepted into the beta.
pub fn accepted_text(id: i64) -> (text: String)
    ensures
        text@ == accepted_spec(id),
{
    let mut text = String::from_str("User ");
    push_signed_decimal(&mut text, id);
    text.append(" accepted into beta");
    text
}

/// The answer to a search by title with these results: too many are not
/// listed; the others are, in pages.
pub open spec fn search_answer_spec(episodes: Seq<Episode>) -> AnswerView {
    if episodes.len() > MAX_RESULTS {
        AnswerView::Plain(too_many_spec(episodes.len()))
    } else {
        AnswerView::Pages(paginate_spec(blocks_of(search_response_spec(episodes))))
    }
}

/// The answer to a search by title that found `episodes`.
pub fn search_answer(episodes: &Vec<Episode>) -> (answer: Answer)
    ensures
        answer@ == search_answer_spec(episodes@),
{
    if too_many_results(episodes.len()) {
        Answer::Plain(too_many_text(episodes.len()))
    } else {
        let response = search_response(episodes);
        Answer::Pages(paginate_response(response.as_str()))
    }
}

/// The answer to a search in all transcripts with these results.
pub open spec fn advanced_answer_spec(episodes: Seq<Episode>) -> AnswerView {
    if episodes.len() > MAX_RESULTS {
        AnswerView::Plain(too_many_spec(episodes.len()))
    } else {
        AnswerView::Pages(paginate_spec(blocks_of(advanced_response_spec(episodes))))
    }
}

/// The answer to a search in all transcripts that found `episodes`.
pub fn advanced_answer(episodes: &Vec<Episode>) -> (answer: Answer)
    ensures
        answer@ == advanced_answer_spec(episodes@),
{
    if too_many_results(episodes.len()) {
        Answer::Plain(too_many_text(episodes.len()))
    } else {
        let response = advanced_response(episodes);
        Answer::Pages(paginate_response(response.as_str()))
    }
}

/// The answer to a search in one episode with these matches: too many are
/// not listed; none are said to be none; the others are listed in pages.
pub open spec fn episode_answer_spec(
    id: u32,
    title: Seq<char>,
    matches: Seq<SearchMatch>,
) -> AnswerView {
    if matches.len() > MAX_RESULTS {
        AnswerView::Plain(too_many_spec(matches.len()))
    } else if matches.len() == 0 {
        AnswerView::Plain(NO_MATCHES@)
    } else {
        AnswerView::Pages(paginate_spec(blocks_of(matches_response_spec(id, title, matches))))
    }
}

/// The answer to a search in the transcript of `episode` that found
/// `matches`.
pub fn episode_answer(episode: &Episode, matches: &Vec<SearchMatch>) -> (answer: Answer)
    ensures
        answer@ == episode_answer_spec(episode.id, episode.title@, matches@),
{
    if too_many_results(matches.len()) {
        Answer::Plain(too_many_text(matches.len()))
    } else if matches.len() == 0 {
        Answer::Plain(String::from_str(NO_MATCHES))
    } else {
        let response = matches_response(episode, matches);
        Answer::Pages(paginate_response(response.as_str()))
    }
}

/// The two parts of a search in one episode: what names the episode, and
/// what to look for in it. They are the first two arguments; fewer are a
/// malformed query.
pub open spec fn episode_query_spec(args: Option<Seq<Seq<char>>>) -> Option<
    (Seq<char>, Seq<char>),
> {
    match args {
        Some(list) => if list.len() >= 2 {
            Some((list[0], list[1]))
        } else {
            None
        },
        None => None,
    }
}

/// Takes the episode and the query out of the arguments of a search in one
/// episode.
pub fn episode_query(args: Option<Vec<String>>) -> (parts: Result<(String, String), BotError>)
    ensures
        match parts {
            Ok((episode, query)) => episode_query_spec(crate::bot::args::texts_of(args)) == Some(
                (episode@, query@),
            ),
            Err(e) => e == BotError::MalformedQuery && episode_query_spec(
                crate::bot::args::texts_of(args),
            ) is None,
        },
{
    match args {
        Some(list) => {
            if list.len() >= 2 {
                Ok((list[0].clone(), list[1].clone()))
            } else {
                Err(BotError::MalformedQuery)
            }
        },
        None => Err(BotError::MalformedQuery),
    }
}

/// Reads the text after the command for a search in one episode.
pub fn parse_episode_query(text: &str) -> (parts: Result<(String, String), BotError>)
    ensures
        match parts {
            Ok((episode, query)) => episode_query_spec(split_quoted_args_spec(text@)) == Some(
                (episode@, query@),
            ),
            Err(e) => e == BotError::MalformedQuery && episode_query_spec(
                split_quoted_args_spec(text@),
            ) is None,
        },
{
    episode_query(split_quoted_args(text))
}

/// What becomes of a request to join the beta.
#[derive(Debug)]
pub enum BetaRequest {
    /// The user is in the beta already.
    HasAccess,
    /// The user has asked before and waits.
    Waiting,
    /// The user is put on the waiting list: this record is stored.
    Enlist(BotUser),
}

/// The decision on a request to join the beta: `known` is the sender as the
/// datastore holds them, `sender` the sender as the message names them.
pub open spec fn beta_request_spec(known: Option<BotUser>, sender: BotUser) -> BetaRequest {
    match known {
        Some(user) => if user.beta {
            BetaRequest::HasAccess
        } else if user.waitlist {
            BetaRequest::Waiting
        } else {
            BetaRequest::Enlist(BotUser { waitlist: true, ..user })
        },
        None => BetaRequest::Enlist(BotUser { waitlist: true, ..sender }),
    }
}

/// Decides on a request to join the beta.
pub fn beta_request(known: Option<BotUser>, sender: BotUser) -> (decision: BetaRequest)
    ensures
        decision == beta_request_spec(known, sender),
{
    match known {
        Some(user) => {
            if user.beta {
                BetaRequest::HasAccess
            } else if user.waitlist {
                BetaRequest::Waiting
            } else {
                let mut user = user;
                user.waitlist = true;
                BetaRequest::Enlist(user)
            }
        },
        None => {
            let mut user = sender;
            user.waitlist = true;
            BetaRequest::Enlist(user)
        },
    }
}

/// What is said to a user who asked to join the beta.
pub fn beta_request_text(decision: &BetaRequest) -> (text: &'static str)
    ensures
        text@ == match decision {
            BetaRequest::HasAccess => ALREADY_BETA@,
            BetaRequest::Waiting => ALREADY_REQUESTED@,
            BetaRequest::Enlist(_) => REQUEST_SENT@,
        },
{
    match decision {
        BetaRequest::HasAccess => ALREADY_BETA,
        BetaRequest::Waiting => ALREADY_REQUESTED,
        BetaRequest::Enlist(_) => REQUEST_SENT,
    }
}

/// What becomes of the administrator's word to accept a user.
#[derive(Debug)]
pub enum BetaAccept {
    /// The user is in the beta already.
    AlreadyIn,
    /// The user is let in: this record is stored.
    Accept(BotUser),
}

/// The decision on letting in the user that the datastore holds under the
/// id given; where it holds none, the query is malformed.
pub open spec fn beta_accept_spec(known: Option<BotUser>) -> Result<BetaAccept, BotError> {
    match known {
        Some(user) => if user.beta {
            Ok(BetaAccept::AlreadyIn)
        } else {
            Ok(BetaAccept::Accept(BotUser { beta: true, ..user }))
        },
        None => Err(BotError::MalformedQuery),
    }
}

/// Decides on letting a user into the beta.
pub fn beta_accept(known: Option<BotUser>) -> (decision: Result<BetaAccept, BotError>)
    ensures
        decision == beta_accept_spec(known),
{
    match known {
        Some(user) => {
            if user.beta {
                Ok(BetaAccept::AlreadyIn)
            } else {
                let mut user = user;
                user.beta = true;
                Ok(BetaAccept::Accept(user))
            }
        },
        None => Err(BotError::MalformedQuery),
    }
}

/// What std's `str::parse` reads from `text` as an `i64`, if anything.
pub uninterp spec fn parsed_i64(text: Seq<char>) -> Option<i64>;

/// std's `str::parse` for `i64`, with the error dropped. What it reads is
/// named `parsed_i64` of the text; nothing more is claimed of it.
#[verifier::external_body]
fn parse_i64(text: &str) -> (number: Option<i64>)
    ensures
        number == parsed_i64(text@),
{
    text.parse::<i64>().ok()
}

/// The user id in a number that was read; without a number the query is
/// malformed.
pub fn user_id_from(number: Option<i64>) -> (id: Result<i64, BotError>)
    ensures
        id == match number {
            Some(n) => Ok::<i64, BotError>(n),
            None => Err(BotError::MalformedQuery),
        },
{
    match number {
        Some(n) => Ok(n),
        None => Err(BotError::MalformedQuery),
    }
}

/// Reads the id of the user to accept from the text after the command.
pub fn parse_user_id(text: &str) -> (id: Result<i64, BotError>)
    ensures
        id == match parsed_i64(text@) {
            Some(n) => Ok::<i64, BotError>(n),
            None => Err(BotError::MalformedQuery),
        },
{
    user_id_from(parse_i64(text))
}

} // verus!
