//! The answer to one command, step by step.
//!
//! The reply decides; its caller asks the datastore and talks to Telegram.
//! Each call of [`Reply::advance`] takes what the last piece of work gave
//! and answers with the next piece of work.

use crate::bot::args::{split_quoted_args, split_quoted_args_spec, texts_of};
use crate::bot::command::{Access, Command};
use crate::bot::error::BotError;
use crate::bot::format::{users_response, users_response_spec, SearchMatch};
use crate::bot::interaction::{
    Interaction, InteractionType, NeedType, ALREADY_EXISTS, CANCELLED, CHOOSE_ACTION,
};
use crate::bot::paginate::byte_len;
use crate::bot::reply::{
    accepted_spec, accepted_text, advanced_answer, advanced_answer_spec, beta_accept,
    beta_accept_spec, beta_request, beta_request_spec, episode_answer, episode_answer_spec,
    parse_user_id, parsed_i64, query_too_short, search_answer, search_answer_spec, Answer,
    AnswerView, BetaAccept, BetaRequest, ALREADY_BETA, ALREADY_REQUESTED, BETA_ACCEPTED,
    MIN_QUERY, NOTHING_TO_CANCEL, NOT_AUTHORIZED, NOT_WHITELISTED, QUERY_TOO_SHORT,
    REQUEST_ERROR, REQUEST_SENT, SEARCHING, SEARCHING_EPISODE, USER_ALREADY_IN_BETA,
};
use crate::bot::user::BotUser;
use crate::text::texts;
use crate::transcript::data::Episode;
use vstd::prelude::*;
use vstd::string::*;

verus! {

/// Who gets a message.
#[derive(Clone, Copy, Debug, PartialEq, Eq, Structural)]
pub enum Recipient {
    /// The chat in which the command was given.
    Chat,
    /// The user with this id.
    User(i64),
}

/// A message to send.
#[derive(Debug)]
pub enum Outgoing {
    /// Plain text.
    Plain(Recipient, String),
    /// Text in MarkdownV2, to the chat.
    Markdown(String),
    /// The help text, in MarkdownV2, to the chat.
    Help,
    /// Plain text to the chat, with a keyboard of these actions below it.
    Keyboard(String, Vec<Vec<InteractionType>>),
}

/// A question to the datastore.
#[derive(Debug)]
pub enum Question {
    /// Is the user with this id on the whitelist?
    Whitelisted(i64),
    /// Has the user with this id an interaction in this chat?
    Interaction(i64),
    /// Which episodes have this in their title?
    SearchMeta(String),
    /// Which episodes have this in their transcript?
    SearchAll(String),
    /// Which episode does this name?
    FindEpisode(String),
    /// Where in the transcript of this episode does this occur?
    SearchOne(u32, String),
    /// Who is the user with this id?
    User(i64),
    /// Who waits for the beta?
    WaitList,
    /// Who is in the beta?
    BetaList,
}

/// A change to the datastore.
pub enum Change {
    /// Store this interaction.
    SaveInteraction(Interaction<NeedType>),
    /// Delete the interaction of the user with this id in this chat.
    DeleteInteraction(i64),
    /// Store this user.
    UpdateUser(BotUser),
}

/// The work to do next.
pub enum ReplyStep {
    Ask(Question),
    Store(Change),
    Send(Outgoing),
    /// The reply is over, with this result.
    Done(Result<(), BotError>),
    /// The event does not belong to the work in progress: nothing changes.
    Ignored,
}

/// What the outside work gave.
pub enum ReplyEvent {
    /// The command has arrived.
    Begin,
    /// Whether the sender is on the whitelist.
    Whitelisted(bool),
    /// Whether the sender has an interaction in the chat.
    Interaction(bool),
    /// The episodes that a search found.
    Episodes(Vec<Episode>),
    /// The episode that a name stands for.
    EpisodeId(u32),
    /// The matches of a search in this episode.
    Matches(Episode, Vec<SearchMatch>),
    /// The user that was asked for, if there is one.
    User(Option<BotUser>),
    /// The users that were asked for.
    Users(Vec<BotUser>),
    /// The change was made.
    Stored,
    /// The message was sent.
    Sent,
    /// The work failed.
    Failed(BotError),
}

/// [`Outgoing`] as a mathematical value.
pub enum OutgoingView {
    Plain(Recipient, Seq<char>),
    Markdown(Seq<char>),
    Help,
    Keyboard(Seq<char>, Seq<Seq<InteractionType>>),
}

/// [`Question`] as a mathematical value.
pub enum QuestionView {
    Whitelisted(i64),
    Interaction(i64),
    SearchMeta(Seq<char>),
    SearchAll(Seq<char>),
    FindEpisode(Seq<char>),
    SearchOne(u32, Seq<char>),
    User(i64),
    WaitList,
    BetaList,
}

/// [`Change`] as a mathematical value.
pub enum ChangeView {
    SaveInteraction { chat: i64, user: BotUser, ty: InteractionType },
    DeleteInteraction(i64),
    UpdateUser(BotUser),
}

/// [`ReplyStep`] as a mathematical value.
pub enum ReplyStepView {
    Ask(QuestionView),
    Store(ChangeView),
    Send(OutgoingView),
    Done(Result<(), BotError>),
    Ignored,
}

impl View for Outgoing {
    type V = OutgoingView;

    open spec fn view(&self) -> OutgoingView {
        match self {
            Outgoing::Plain(to, text) => OutgoingView::Plain(*to, text@),
            Outgoing::Markdown(text) => OutgoingView::Markdown(text@),
            Outgoing::Help => OutgoingView::Help,
            Outgoing::Keyboard(text, rows) => OutgoingView::Keyboard(
                text@,
                rows@.map_values(|row: Vec<InteractionType>| row@),
            ),
        }
    }
}

impl View for Question {
    type V = QuestionView;

    open spec fn view(&self) -> QuestionView {
        match self {
            Question::Whitelisted(id) => QuestionView::Whitelisted(*id),
            Question::Interaction(id) => QuestionView::Interaction(*id),
            Question::SearchMeta(q) => QuestionView::SearchMeta(q@),
            Question::SearchAll(q) => QuestionView::SearchAll(q@),
            Question::FindEpisode(q) => QuestionView::FindEpisode(q@),
            Question::SearchOne(id, q) => QuestionView::SearchOne(*id, q@),
            Question::User(id) => QuestionView::User(*id),
            Question::WaitList => QuestionView::WaitList,
            Question::BetaList => QuestionView::BetaList,
        }
    }
}

impl View for Change {
    type V = ChangeView;

    open spec fn view(&self) -> ChangeView {
        match self {
            Change::SaveInteraction(interaction) => ChangeView::SaveInteraction {
                chat: interaction.chat_spec(),
                user: interaction.user_spec(),
                ty: interaction.ty_spec(),
            },
            Change::DeleteInteraction(id) => ChangeView::DeleteInteraction(*id),
            Change::UpdateUser(user) => ChangeView::UpdateUser(*user),
        }
    }
}

impl View for ReplyStep {
    type V = ReplyStepView;

    open spec fn view(&self) -> ReplyStepView {
        match self {
            ReplyStep::Ask(question) => ReplyStepView::Ask(question@),
            ReplyStep::Store(change) => ReplyStepView::Store(change@),
            ReplyStep::Send(message) => ReplyStepView::Send(message@),
            ReplyStep::Done(result) => ReplyStepView::Done(*result),
            ReplyStep::Ignored => ReplyStepView::Ignored,
        }
    }
}

/// How far a reply has come.
pub enum ReplyPhase {
    /// Made; the command has not been looked at.
    Created,
    /// The whitelist was asked about the sender.
    Whitelist,
    /// The datastore was asked for the sender's interaction.
    Interaction,
    /// The keyboard is being sent; the interaction of this chat, user and
    /// kind is stored next.
    Offering(i64, BotUser, InteractionType),
    /// The word that the interaction is cancelled is being sent; the
    /// interaction of the user with this id is deleted next.
    Cancelling(i64),
    /// A change is being made, after which the reply is over.
    Finishing,
    /// The word that a search has begun is being sent.
    Announcing,
    /// The datastore was asked for episodes.
    Results,
    /// The datastore was asked which episode the first of these arguments
    /// names.
    Resolving(Seq<Seq<char>>),
    /// The datastore was asked for the matches in an episode.
    Matching,
    /// The datastore was asked for the sender's record.
    Known,
    /// The sender is being put on the waiting list.
    Enlisting,
    /// The datastore was asked for a list of users.
    Listing,
    /// The datastore was asked for the user to accept.
    Candidate,
    /// The user with this id is being stored as accepted.
    Accepting(i64),
    /// The user with this id is being told that they are accepted.
    Informing(i64),
    /// A message is being sent; these pages follow it.
    Telling(Seq<Seq<char>>),
    /// Over: the result has been given.
    Ended,
}

/// A reply as a mathematical value.
pub struct ReplyModel {
    /// The command to answer.
    pub command: Command,
    /// The chat in which it was given.
    pub chat: i64,
    /// Who gave it, if that is known and was not yet handed on.
    pub sender: Option<BotUser>,
    /// Whether the sender is the administrator.
    pub admin: bool,
    /// How far the reply has come.
    pub phase: ReplyPhase,
}

impl ReplyModel {
    /// The same reply in another phase.
    pub open spec fn at(self, phase: ReplyPhase) -> ReplyModel {
        ReplyModel { phase, ..self }
    }

    /// The reply over, with `result`.
    pub open spec fn end(self, result: Result<(), BotError>) -> (ReplyModel, ReplyStepView) {
        (self.at(ReplyPhase::Ended), ReplyStepView::Done(result))
    }

    /// One plain message to the chat, after which the reply is over.
    pub open spec fn tell(self, text: Seq<char>) -> (ReplyModel, ReplyStepView) {
        (
            self.at(ReplyPhase::Telling(Seq::empty())),
            ReplyStepView::Send(OutgoingView::Plain(Recipient::Chat, text)),
        )
    }

    /// An answer: a plain one is told; of pages the first is sent and the
    /// others follow; without a page the reply is over.
    pub open spec fn answer(self, answer: AnswerView) -> (ReplyModel, ReplyStepView) {
        match answer {
            AnswerView::Plain(text) => self.tell(text),
            AnswerView::Pages(pages) => if pages.len() == 0 {
                self.end(Ok(()))
            } else {
                (
                    self.at(ReplyPhase::Telling(pages.drop_first())),
                    ReplyStepView::Send(OutgoingView::Markdown(pages[0])),
                )
            },
        }
    }

    /// A question to the datastore.
    pub open spec fn ask(self, question: QuestionView, phase: ReplyPhase) -> (
        ReplyModel,
        ReplyStepView,
    ) {
        (self.at(phase), ReplyStepView::Ask(question))
    }

    /// What is done for a command that may be carried out.
    pub open spec fn dispatch(self) -> (ReplyModel, ReplyStepView) {
        match self.command {
            Command::Start | Command::Cancel => match self.sender {
                Some(user) => self.ask(QuestionView::Interaction(user.id), ReplyPhase::Interaction),
                None => self.tell(REQUEST_ERROR@),
            },
            Command::Help => (
                self.at(ReplyPhase::Telling(Seq::empty())),
                ReplyStepView::Send(OutgoingView::Help),
            ),
            Command::Search(query) => if byte_len(query@) < MIN_QUERY {
                self.tell(QUERY_TOO_SHORT@)
            } else {
                self.ask(QuestionView::SearchMeta(query@), ReplyPhase::Results)
            },
            Command::SearchAdvanced(_) => (
                self.at(ReplyPhase::Announcing),
                ReplyStepView::Send(OutgoingView::Plain(Recipient::Chat, SEARCHING@)),
            ),
            Command::SearchAdvancedEpisode(_) => (
                self.at(ReplyPhase::Announcing),
                ReplyStepView::Send(OutgoingView::Plain(Recipient::Chat, SEARCHING_EPISODE@)),
            ),
            Command::Beta => match self.sender {
                Some(user) => self.ask(QuestionView::User(user.id), ReplyPhase::Known),
                None => self.tell(REQUEST_ERROR@),
            },
            Command::BetaWaitList => self.ask(QuestionView::WaitList, ReplyPhase::Listing),
            Command::BetaList => self.ask(QuestionView::BetaList, ReplyPhase::Listing),
            Command::BetaAccept(query) => match parsed_i64(query@) {
                Some(id) => self.ask(QuestionView::User(id), ReplyPhase::Candidate),
                None => self.end(Err(BotError::MalformedQuery)),
            },
        }
    }

    /// What is done once it is known whether the sender is on the whitelist,
    /// where that was asked.
    pub open spec fn let_in(self, whitelisted: Option<bool>) -> (ReplyModel, ReplyStepView) {
        match self.command.access_spec(whitelisted, self.admin) {
            Access::NotWhitelisted => self.tell(NOT_WHITELISTED@),
            Access::NotAuthorized => self.tell(NOT_AUTHORIZED@),
            Access::Granted => self.dispatch(),
        }
    }

    /// What the reply becomes on `event`, and the work it asks for.
    pub open spec fn next(self, event: ReplyEvent) -> (ReplyModel, ReplyStepView) {
        match (self.phase, event) {
            (ReplyPhase::Created, ReplyEvent::Begin) => match self.sender {
                Some(user) => if self.command.needs_whitelist_spec(true) {
                    self.ask(QuestionView::Whitelisted(user.id), ReplyPhase::Whitelist)
                } else {
                    self.let_in(None)
                },
                None => self.let_in(None),
            },
            (ReplyPhase::Created, _) => (self, ReplyStepView::Ignored),
            (ReplyPhase::Ended, _) => (self, ReplyStepView::Ignored),
            (_, ReplyEvent::Failed(e)) => self.end(Err(e)),
            (ReplyPhase::Whitelist, ReplyEvent::Whitelisted(listed)) => self.let_in(Some(listed)),
            (ReplyPhase::Interaction, ReplyEvent::Interaction(found)) => match self.sender {
                Some(user) => if self.command is Start {
                    if found {
                        self.tell(ALREADY_EXISTS@)
                    } else {
                        (
                            ReplyModel {
                                sender: None,
                                phase: ReplyPhase::Offering(
                                    self.chat,
                                    user,
                                    InteractionType::Start,
                                ),
                                ..self
                            },
                            ReplyStepView::Send(
                                OutgoingView::Keyboard(
                                    CHOOSE_ACTION@,
                                    InteractionType::keyboard_spec(),
                                ),
                            ),
                        )
                    }
                } else {
                    if found {
                        (
                            self.at(ReplyPhase::Cancelling(user.id)),
                            ReplyStepView::Send(OutgoingView::Plain(Recipient::Chat, CANCELLED@)),
                        )
                    } else {
                        self.tell(NOTHING_TO_CANCEL@)
                    }
                },
                None => self.tell(REQUEST_ERROR@),
            },
            (ReplyPhase::Offering(chat, user, ty), ReplyEvent::Sent) => (
                self.at(ReplyPhase::Finishing),
                ReplyStepView::Store(ChangeView::SaveInteraction { chat, user, ty }),
            ),
            (ReplyPhase::Cancelling(id), ReplyEvent::Sent) => (
                self.at(ReplyPhase::Finishing),
                ReplyStepView::Store(ChangeView::DeleteInteraction(id)),
            ),
            (ReplyPhase::Finishing, ReplyEvent::Stored) => self.end(Ok(())),
            (ReplyPhase::Announcing, ReplyEvent::Sent) => match self.command {
                Command::SearchAdvanced(query) => self.ask(
                    QuestionView::SearchAll(query@),
                    ReplyPhase::Results,
                ),
                Command::SearchAdvancedEpisode(query) => match split_quoted_args_spec(query@) {
                    Some(args) => if args.len() >= 1 {
                        self.ask(QuestionView::FindEpisode(args[0]), ReplyPhase::Resolving(args))
                    } else {
                        self.end(Err(BotError::MalformedQuery))
                    },
                    None => self.end(Err(BotError::MalformedQuery)),
                },
                _ => self.end(Ok(())),
            },
            (ReplyPhase::Results, ReplyEvent::Episodes(episodes)) => if self.command
                is SearchAdvanced {
                self.answer(advanced_answer_spec(episodes@))
            } else {
                self.answer(search_answer_spec(episodes@))
            },
            (ReplyPhase::Resolving(args), ReplyEvent::EpisodeId(id)) => if args.len() >= 2 {
                self.ask(QuestionView::SearchOne(id, args[1]), ReplyPhase::Matching)
            } else {
                self.end(Err(BotError::MalformedQuery))
            },
            (ReplyPhase::Matching, ReplyEvent::Matches(episode, matches)) => self.answer(
                episode_answer_spec(episode.id, episode.title@, matches@),
            ),
            (ReplyPhase::Known, ReplyEvent::User(known)) => match self.sender {
                Some(sender) => match beta_request_spec(known, sender) {
                    BetaRequest::HasAccess => (ReplyModel { sender: None, ..self }).tell(
                        ALREADY_BETA@,
                    ),
                    BetaRequest::Waiting => (ReplyModel { sender: None, ..self }).tell(
                        ALREADY_REQUESTED@,
                    ),
                    BetaRequest::Enlist(user) => (
                        ReplyModel { sender: None, phase: ReplyPhase::Enlisting, ..self },
                        ReplyStepView::Store(ChangeView::UpdateUser(user)),
                    ),
                },
                None => self.tell(REQUEST_ERROR@),
            },
            (ReplyPhase::Enlisting, ReplyEvent::Stored) => self.tell(REQUEST_SENT@),
            (ReplyPhase::Listing, ReplyEvent::Users(users)) => self.tell(
                users_response_spec(self.command, users@),
            ),
            (ReplyPhase::Candidate, ReplyEvent::User(known)) => match beta_accept_spec(known) {
                Ok(BetaAccept::AlreadyIn) => self.tell(USER_ALREADY_IN_BETA@),
                Ok(BetaAccept::Accept(user)) => (
                    self.at(ReplyPhase::Accepting(user.id)),
                    ReplyStepView::Store(ChangeView::UpdateUser(user)),
                ),
                Err(e) => self.end(Err(e)),
            },
            (ReplyPhase::Accepting(id), ReplyEvent::Stored) => (
                self.at(ReplyPhase::Informing(id)),
                ReplyStepView::Send(OutgoingView::Plain(Recipient::User(id), BETA_ACCEPTED@)),
            ),
            (ReplyPhase::Informing(id), ReplyEvent::Sent) => self.tell(accepted_spec(id)),
            (ReplyPhase::Telling(pages), ReplyEvent::Sent) => if pages.len() == 0 {
                self.end(Ok(()))
            } else {
                (
                    self.at(ReplyPhase::Telling(pages.drop_first())),
                    ReplyStepView::Send(OutgoingView::Markdown(pages[0])),
                )
            },
            _ => (self, ReplyStepView::Ignored),
        }
    }
}

/// A known sender who is not on the whitelist, and gives a command that is
/// not open to everyone, is asked about, told so, and nothing else: the
/// reply then ends well.
pub proof fn lemma_off_the_whitelist_is_turned_away(reply: ReplyModel, user: BotUser)
    requires
        reply.phase is Created,
        reply.sender == Some(user),
        !reply.command.unrestricted_spec(),
    ensures
        ({
            let (asked, first) = reply.next(ReplyEvent::Begin);
            let (told, second) = asked.next(ReplyEvent::Whitelisted(false));
            let (ended, third) = told.next(ReplyEvent::Sent);
            &&& first == ReplyStepView::Ask(QuestionView::Whitelisted(user.id))
            &&& second == ReplyStepView::Send(
                OutgoingView::Plain(Recipient::Chat, NOT_WHITELISTED@),
            )
            &&& third == ReplyStepView::Done(Ok(()))
            &&& ended.phase is Ended
        }),
{
}

/// A command of the administrator from anyone else is answered with the
/// refusal at once: the datastore is not asked.
pub proof fn lemma_only_the_administrator_commands(reply: ReplyModel)
    requires
        reply.phase is Created,
        reply.command.admin_access_spec(),
        !reply.admin,
    ensures
        reply.next(ReplyEvent::Begin).1 == ReplyStepView::Send(
            OutgoingView::Plain(Recipient::Chat, NOT_AUTHORIZED@),
        ),
{
}

/// Work that fails ends the reply with its error, whatever the reply was
/// doing.
pub proof fn lemma_failure_ends_the_reply(reply: ReplyModel, e: BotError)
    requires
        !(reply.phase is Created),
        !(reply.phase is Ended),
    ensures
        reply.next(ReplyEvent::Failed(e)) == reply.end(Err(e)),
{
}

/// A reply that is over asks for no more work.
pub proof fn lemma_ended_reply_asks_nothing(reply: ReplyModel, event: ReplyEvent)
    requires
        reply.phase is Ended,
    ensures
        reply.next(event) == (reply, ReplyStepView::Ignored),
{
}

/// The state of a reply, with what it holds for its next step.
enum ReplyState {
    Created,
    Whitelist,
    Interaction,
    Offering(Interaction<NeedType>),
    Cancelling(i64),
    Finishing,
    Announcing,
    Results,
    Resolving(Vec<String>),
    Matching,
    Known,
    Enlisting,
    Listing,
    Candidate,
    Accepting(i64),
    Informing(i64),
    Telling(Vec<String>),
    Ended,
}

impl View for ReplyState {
    type V = ReplyPhase;

    closed spec fn view(&self) -> ReplyPhase {
        match self {
            ReplyState::Created => ReplyPhase::Created,
            ReplyState::Whitelist => ReplyPhase::Whitelist,
            ReplyState::Interaction => ReplyPhase::Interaction,
            ReplyState::Offering(shown) => ReplyPhase::Offering(
                shown.chat_spec(),
                shown.user_spec(),
                shown.ty_spec(),
            ),
            ReplyState::Cancelling(id) => ReplyPhase::Cancelling(*id),
            ReplyState::Finishing => ReplyPhase::Finishing,
            ReplyState::Announcing => ReplyPhase::Announcing,
            ReplyState::Results => ReplyPhase::Results,
            ReplyState::Resolving(args) => ReplyPhase::Resolving(texts(args@)),
            ReplyState::Matching => ReplyPhase::Matching,
            ReplyState::Known => ReplyPhase::Known,
            ReplyState::Enlisting => ReplyPhase::Enlisting,
            ReplyState::Listing => ReplyPhase::Listing,
            ReplyState::Candidate => ReplyPhase::Candidate,
            ReplyState::Accepting(id) => ReplyPhase::Accepting(*id),
            ReplyState::Informing(id) => ReplyPhase::Informing(*id),
            ReplyState::Telling(pages) => ReplyPhase::Telling(texts(pages@)),
            ReplyState::Ended => ReplyPhase::Ended,
        }
    }
}

/// The reply to one command.
pub struct Reply {
    command: Command,
    chat: i64,
    sender: Option<BotUser>,
    admin: bool,
    state: ReplyState,
}

impl View for Reply {
    type V = ReplyModel;

    closed spec fn view(&self) -> ReplyModel {
        ReplyModel {
            command: self.command,
            chat: self.chat,
            sender: self.sender,
            admin: self.admin,
            phase: self.state@,
        }
    }
}

impl Reply {
    /// The reply to `command`, which `sender` gave in `chat`. `admin` says
    /// whether the sender is the administrator.
    pub fn new(command: Command, chat: i64, sender: Option<BotUser>, admin: bool) -> (reply: Reply)
        ensures
            reply@ == (ReplyModel { command, chat, sender, admin, phase: ReplyPhase::Created }),
    {
        Reply { command, chat, sender, admin, state: ReplyState::Created }
    }

    /// Whether the reply is over.
    pub fn is_ended(&self) -> (ended: bool)
        ensures
            ended == (self@.phase is Ended),
    {
        match self.state {
            ReplyState::Ended => true,
            _ => false,
        }
    }

    /// Ends the reply with `result`.
    fn end(&mut self, result: Result<(), BotError>) -> (step: ReplyStep)
        ensures
            (final(self)@, step@) == old(self)@.end(result),
    {
        self.state = ReplyState::Ended;
        ReplyStep::Done(result)
    }

    /// Sends one plain message to the chat, after which the reply is over.
    fn tell(&mut self, text: &str) -> (step: ReplyStep)
        ensures
            (final(self)@, step@) == old(self)@.tell(text@),
    {
        self.state = ReplyState::Telling(Vec::new());
        proof {
            assert(texts(Seq::<String>::empty()) =~= Seq::<Seq<char>>::empty());
        }
        ReplyStep::Send(Outgoing::Plain(Recipient::Chat, String::from_str(text)))
    }

    /// Sends the first of `pages` and keeps the others; without a page the
    /// reply is over.
    fn send_pages(&mut self, pages: Vec<String>) -> (step: ReplyStep)
        ensures
            (final(self)@, step@) == old(self)@.answer(AnswerView::Pages(texts(pages@))),
    {
        let mut pages = pages;
        if pages.len() == 0 {
            self.end(Ok(()))
        } else {
            let ghost all = texts(pages@);
            let first = pages.remove(0);
            proof {
                assert(texts(pages@) =~= all.drop_first());
            }
            self.state = ReplyState::Telling(pages);
            ReplyStep::Send(Outgoing::Markdown(first))
        }
    }

    /// Gives an answer.
    fn answer(&mut self, answer: Answer) -> (step: ReplyStep)
        ensures
            (final(self)@, step@) == old(self)@.answer(answer@),
    {
        match answer {
            Answer::Plain(text) => self.tell(text.as_str()),
            Answer::Pages(pages) => self.send_pages(pages),
        }
    }

    /// Does what a command that may be carried out asks for.
    fn dispatch(&mut self) -> (step: ReplyStep)
        ensures
            (final(self)@, step@) == old(self)@.dispatch(),
    {
        match &self.command {
            Command::Start | Command::Cancel => match &self.sender {
                Some(user) => {
                    let id = user.id;
                    self.state = ReplyState::Interaction;
                    ReplyStep::Ask(Question::Interaction(id))
                },
                None => self.tell(REQUEST_ERROR),
            },
            Command::Help => {
                self.state = ReplyState::Telling(Vec::new());
                proof {
                    assert(texts(Seq::<String>::empty()) =~= Seq::<Seq<char>>::empty());
                }
                ReplyStep::Send(Outgoing::Help)
            },
            Command::Search(query) => {
                if query_too_short(query.as_str()) {
                    self.tell(QUERY_TOO_SHORT)
                } else {
                    let query = query.clone();
                    self.state = ReplyState::Results;
                    ReplyStep::Ask(Question::SearchMeta(query))
                }
            },
            Command::SearchAdvanced(_) => {
                self.state = ReplyState::Announcing;
                ReplyStep::Send(Outgoing::Plain(Recipient::Chat, String::from_str(SEARCHING)))
            },
            Command::SearchAdvancedEpisode(_) => {
                self.state = ReplyState::Announcing;
                ReplyStep::Send(
                    Outgoing::Plain(Recipient::Chat, String::from_str(SEARCHING_EPISODE)),
                )
            },
            Command::Beta => match &self.sender {
                Some(user) => {
                    let id = user.id;
                    self.state = ReplyState::Known;
                    ReplyStep::Ask(Question::User(id))
                },
                None => self.tell(REQUEST_ERROR),
            },
            Command::BetaWaitList => {
                self.state = ReplyState::Listing;
                ReplyStep::Ask(Question::WaitList)
            },
            Command::BetaList => {
                self.state = ReplyState::Listing;
                ReplyStep::Ask(Question::BetaList)
            },
            Command::BetaAccept(query) => match parse_user_id(query.as_str()) {
                Ok(id) => {
                    self.state = ReplyState::Candidate;
                    ReplyStep::Ask(Question::User(id))
                },
                Err(e) => self.end(Err(e)),
            },
        }
    }

    /// Turns the sender away or carries the command out.
    fn let_in(&mut self, whitelisted: Option<bool>) -> (step: ReplyStep)
        ensures
            (final(self)@, step@) == old(self)@.let_in(whitelisted),
    {
        match self.command.access(whitelisted, self.admin) {
            Access::NotWhitelisted => self.tell(NOT_WHITELISTED),
            Access::NotAuthorized => self.tell(NOT_AUTHORIZED),
            Access::Granted => self.dispatch(),
        }
    }

    /// Goes on after the word that a search has begun was sent.
    fn search(&mut self) -> (step: ReplyStep)
        requires
            old(self)@.phase is Announcing,
        ensures
            (final(self)@, step@) == old(self)@.next(ReplyEvent::Sent),
    {
        match &self.command {
            Command::SearchAdvanced(query) => {
                let query = query.clone();
                self.state = ReplyState::Results;
                ReplyStep::Ask(Question::SearchAll(query))
            },
            Command::SearchAdvancedEpisode(query) => match split_quoted_args(query.as_str()) {
                Some(args) => {
                    if args.len() >= 1 {
                        let name = args[0].clone();
                        self.state = ReplyState::Resolving(args);
                        ReplyStep::Ask(Question::FindEpisode(name))
                    } else {
                        self.end(Err(BotError::MalformedQuery))
                    }
                },
                None => self.end(Err(BotError::MalformedQuery)),
            },
            _ => self.end(Ok(())),
        }
    }

    /// Takes what the last piece of work gave and answers with the next.
    pub fn advance(&mut self, event: ReplyEvent) -> (step: ReplyStep)
        ensures
            (final(self)@, step@) == old(self)@.next(event),
    {
        let mut state = ReplyState::Ended;
        std::mem::swap(&mut self.state, &mut state);
        match (state, event) {
            (ReplyState::Created, ReplyEvent::Begin) => {
                self.state = ReplyState::Created;
                let ask = match &self.sender {
                    Some(user) => if self.command.needs_whitelist(true) {
                        Some(user.id)
                    } else {
                        None
                    },
                    None => None,
                };
                match ask {
                    Some(id) => {
                        self.state = ReplyState::Whitelist;
                        ReplyStep::Ask(Question::Whitelisted(id))
                    },
                    None => self.let_in(None),
                }
            },
            (ReplyState::Created, _) => {
                self.state = ReplyState::Created;
                ReplyStep::Ignored
            },
            (ReplyState::Ended, _) => ReplyStep::Ignored,
            (state, ReplyEvent::Failed(e)) => {
                self.state = state;
                self.end(Err(e))
            },
            (ReplyState::Whitelist, ReplyEvent::Whitelisted(listed)) => {
                self.state = ReplyState::Whitelist;
                self.let_in(Some(listed))
            },
            (ReplyState::Interaction, ReplyEvent::Interaction(found)) => {
                self.state = ReplyState::Interaction;
                let start = matches!(self.command, Command::Start);
                if self.sender.is_none() {
                    self.tell(REQUEST_ERROR)
                } else if start {
                    if found {
                        self.tell(ALREADY_EXISTS)
                    } else {
                        match self.sender.take() {
                            Some(user) => {
                                let (message, shown) = Interaction::start(self.chat, user).notify();
                                self.state = ReplyState::Offering(shown);
                                ReplyStep::Send(message)
                            },
                            None => self.tell(REQUEST_ERROR),
                        }
                    }
                } else {
                    if found {
                        let id = match &self.sender {
                            Some(user) => user.id,
                            None => 0,
                        };
                        self.state = ReplyState::Cancelling(id);
                        ReplyStep::Send(
                            Outgoing::Plain(Recipient::Chat, String::from_str(CANCELLED)),
                        )
                    } else {
                        self.tell(NOTHING_TO_CANCEL)
                    }
                }
            },
            (ReplyState::Offering(shown), ReplyEvent::Sent) => {
                self.state = ReplyState::Finishing;
                ReplyStep::Store(Change::SaveInteraction(shown))
            },
            (ReplyState::Cancelling(id), ReplyEvent::Sent) => {
                self.state = ReplyState::Finishing;
                ReplyStep::Store(Change::DeleteInteraction(id))
            },
            (ReplyState::Finishing, ReplyEvent::Stored) => self.end(Ok(())),
            (ReplyState::Announcing, ReplyEvent::Sent) => {
                self.state = ReplyState::Announcing;
                self.search()
            },
            (ReplyState::Results, ReplyEvent::Episodes(episodes)) => {
                self.state = ReplyState::Results;
                let advanced = matches!(self.command, Command::SearchAdvanced(..));
                if advanced {
                    self.answer(advanced_answer(&episodes))
                } else {
                    self.answer(search_answer(&episodes))
                }
            },
            (ReplyState::Resolving(args), ReplyEvent::EpisodeId(id)) => {
                if args.len() >= 2 {
                    let query = args[1].clone();
                    self.state = ReplyState::Matching;
                    ReplyStep::Ask(Question::SearchOne(id, query))
                } else {
                    self.state = ReplyState::Resolving(args);
                    self.end(Err(BotError::MalformedQuery))
                }
            },
            (ReplyState::Matching, ReplyEvent::Matches(episode, matches)) => {
                self.state = ReplyState::Matching;
                self.answer(episode_answer(&episode, &matches))
            },
            (ReplyState::Known, ReplyEvent::User(known)) => {
                self.state = ReplyState::Known;
                match self.sender.take() {
                    Some(sender) => match beta_request(known, sender) {
                        BetaRequest::HasAccess => self.tell(ALREADY_BETA),
                        BetaRequest::Waiting => self.tell(ALREADY_REQUESTED),
                        BetaRequest::Enlist(user) => {
                            self.state = ReplyState::Enlisting;
                            ReplyStep::Store(Change::UpdateUser(user))
                        },
                    },
                    None => self.tell(REQUEST_ERROR),
                }
            },
            (ReplyState::Enlisting, ReplyEvent::Stored) => {
                self.state = ReplyState::Enlisting;
                self.tell(REQUEST_SENT)
            },
            (ReplyState::Listing, ReplyEvent::Users(users)) => {
                self.state = ReplyState::Listing;
                let text = users_response(&self.command, &users);
                self.tell(text.as_str())
            },
            (ReplyState::Candidate, ReplyEvent::User(known)) => {
                self.state = ReplyState::Candidate;
                match beta_accept(known) {
                    Ok(BetaAccept::AlreadyIn) => self.tell(USER_ALREADY_IN_BETA),
                    Ok(BetaAccept::Accept(user)) => {
                        self.state = ReplyState::Accepting(user.id);
                        ReplyStep::Store(Change::UpdateUser(user))
                    },
                    Err(e) => self.end(Err(e)),
                }
            },
            (ReplyState::Accepting(id), ReplyEvent::Stored) => {
                self.state = ReplyState::Informing(id);
                ReplyStep::Send(
                    Outgoing::Plain(Recipient::User(id), String::from_str(BETA_ACCEPTED)),
                )
            },
            (ReplyState::Informing(id), ReplyEvent::Sent) => {
                self.state = ReplyState::Informing(id);
                let text = accepted_text(id);
                self.tell(text.as_str())
            },
            (ReplyState::Telling(pages), ReplyEvent::Sent) => {
                self.state = ReplyState::Finishing;
                let ghost before = self@;
                let step = self.send_pages(pages);
                proof {
                    assert(before.at(ReplyPhase::Ended) == old(self)@.at(ReplyPhase::Ended));
                }
                step
            },
            (state, _) => {
                self.state = state;
                ReplyStep::Ignored
            },
        }
    }
}

} // verus!
