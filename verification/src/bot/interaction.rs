//! An interaction: a user being led through a choice of actions.

use crate::bot::handler::{Outgoing, OutgoingView, Recipient};
use crate::bot::user::BotUser;
use std::marker::PhantomData;
use vstd::prelude::*;
use vstd::string::*;

verus! {

/// The state of an interaction that was made and not yet shown.
pub struct Created;

/// The state of an interaction that waits for the user to pick an action.
pub struct NeedType;

/// The state of an interaction as it was read back from the datastore.
pub struct Dynamic(pub String);

/// The kinds of search.
#[derive(Clone, Copy, Debug, PartialEq, Eq, Structural)]
pub enum SearchType {
    Unset,
    Simple,
    Advanced,
    Episode,
}

/// What an interaction is about.
#[derive(Clone, Copy, Debug, PartialEq, Eq, Structural)]
pub enum InteractionType {
    Start,
    Support,
    Search(SearchType),
}

/// What is said when an interaction is already going on.
pub const ALREADY_EXISTS: &'static str =
    "C'è già un'interazione in corso, usa il comando /cancel per annullarla";

/// What is said when an interaction was cancelled.
pub const CANCELLED: &'static str = "Interazione annullata";

/// What is said above the choice of actions.
pub const CHOOSE_ACTION: &'static str = "Ciao, seleziona un azione";

impl InteractionType {
    /// Whether the action can be shown: a search must have its kind.
    pub open spec fn shown(&self) -> bool {
        *self != InteractionType::Search(SearchType::Unset)
    }

    /// The label of the action.
    pub open spec fn repr_spec(&self) -> Seq<char> {
        match self {
            InteractionType::Start => "Aiuto"@,
            InteractionType::Support => "Supporto"@,
            InteractionType::Search(SearchType::Simple) => "Ricerca"@,
            InteractionType::Search(SearchType::Advanced) => "Ricerca avanzata"@,
            InteractionType::Search(SearchType::Episode) => "Ricerca episodio"@,
            InteractionType::Search(SearchType::Unset) => ""@,
        }
    }

    /// The label on the action's button.
    pub fn repr(&self) -> (label: &'static str)
        requires
            self.shown(),
        ensures
            label@ == self.repr_spec(),
    {
        match self {
            InteractionType::Start => "Aiuto",
            InteractionType::Support => "Supporto",
            InteractionType::Search(SearchType::Simple) => "Ricerca",
            InteractionType::Search(SearchType::Advanced) => "Ricerca avanzata",
            InteractionType::Search(SearchType::Episode) => "Ricerca episodio",
            InteractionType::Search(SearchType::Unset) => "",
        }
    }

    /// The rows of the keyboard: help and support, the two searches over all
    /// episodes, and the search in one episode.
    pub open spec fn keyboard_spec() -> Seq<Seq<InteractionType>> {
        seq![
            seq![InteractionType::Start, InteractionType::Support],
            seq![
                InteractionType::Search(SearchType::Simple),
                InteractionType::Search(SearchType::Advanced),
            ],
            seq![InteractionType::Search(SearchType::Episode)],
        ]
    }

    /// The actions on the keyboard, row by row. Each of them can be shown.
    pub fn keyboard() -> (rows: Vec<Vec<InteractionType>>)
        ensures
            rows@.map_values(|row: Vec<InteractionType>| row@) == Self::keyboard_spec(),
            forall|i: int, j: int|
                0 <= i < rows@.len() && 0 <= j < rows@[i]@.len() ==> (#[trigger] rows@[i]@[j]).shown(),
    {
        let mut first: Vec<InteractionType> = Vec::new();
        first.push(InteractionType::Start);
        first.push(InteractionType::Support);
        let mut second: Vec<InteractionType> = Vec::new();
        second.push(InteractionType::Search(SearchType::Simple));
        second.push(InteractionType::Search(SearchType::Advanced));
        let mut third: Vec<InteractionType> = Vec::new();
        third.push(InteractionType::Search(SearchType::Episode));
        assert(first@ =~= seq![InteractionType::Start, InteractionType::Support]);
        assert(second@ =~= seq![
            InteractionType::Search(SearchType::Simple),
            InteractionType::Search(SearchType::Advanced),
        ]);
        assert(third@ =~= seq![InteractionType::Search(SearchType::Episode)]);
        let mut rows: Vec<Vec<InteractionType>> = Vec::new();
        rows.push(first);
        rows.push(second);
        rows.push(third);
        assert(rows@.map_values(|row: Vec<InteractionType>| row@) =~= Self::keyboard_spec());
        rows
    }
}

/// An interaction of a user in a chat, in state `S`.
pub struct Interaction<S> {
    chat: i64,
    user: BotUser,
    ty: InteractionType,
    state: PhantomData<S>,
}

impl<S> Interaction<S> {
    /// The chat in which the interaction takes place.
    pub closed spec fn chat_spec(&self) -> i64 {
        self.chat
    }

    /// The user who is led.
    pub closed spec fn user_spec(&self) -> BotUser {
        self.user
    }

    /// What the interaction is about.
    pub closed spec fn ty_spec(&self) -> InteractionType {
        self.ty
    }

    /// The chat in which the interaction takes place.
    pub fn chat(&self) -> (chat: i64)
        ensures
            chat == self.chat_spec(),
    {
        self.chat
    }

    /// The user who is led.
    pub fn user(&self) -> (user: &BotUser)
        ensures
            *user == self.user_spec(),
    {
        &self.user
    }

    /// What the interaction is about.
    pub fn ty(&self) -> (ty: InteractionType)
        ensures
            ty == self.ty_spec(),
    {
        self.ty
    }

    /// The message that tells the user that an interaction is going on
    /// already.
    pub fn already_exists(&self) -> (message: Outgoing)
        ensures
            message@ == OutgoingView::Plain(Recipient::Chat, ALREADY_EXISTS@),
    {
        Outgoing::Plain(Recipient::Chat, String::from_str(ALREADY_EXISTS))
    }

    /// Cancels the interaction: gives the message that tells the user so,
    /// and the id of the user whose interaction is to be deleted.
    pub fn cancel(self) -> (cancelled: (Outgoing, i64))
        ensures
            cancelled.0@ == OutgoingView::Plain(Recipient::Chat, CANCELLED@),
            cancelled.1 == self.user_spec().id,
    {
        (Outgoing::Plain(Recipient::Chat, String::from_str(CANCELLED)), self.user.id)
    }

    /// The same interaction, taken to be in state `T`.
    pub fn infer_state<T>(self) -> (next: Interaction<T>) where T: Sync + Send
        ensures
            next.chat_spec() == self.chat_spec(),
            next.user_spec() == self.user_spec(),
            next.ty_spec() == self.ty_spec(),
    {
        Interaction::<T> { chat: self.chat, user: self.user, ty: self.ty, state: PhantomData }
    }
}

impl Interaction<()> {
    /// A new interaction about `ty`.
    pub fn new(chat: i64, user: BotUser, ty: InteractionType) -> (made: Interaction<Created>)
        ensures
            made.chat_spec() == chat,
            made.user_spec() == user,
            made.ty_spec() == ty,
    {
        Interaction::<Created> { chat, user, ty, state: PhantomData }
    }

    /// A new interaction that offers the actions to choose from.
    pub fn start(chat: i64, user: BotUser) -> (made: Interaction<Created>)
        ensures
            made.chat_spec() == chat,
            made.user_spec() == user,
            made.ty_spec() == InteractionType::Start,
    {
        Self::new(chat, user, InteractionType::Start)
    }
}

impl Interaction<Created> {
    /// Shows the interaction to the user: gives the message with the
    /// keyboard of actions, and the interaction as it waits for the choice.
    pub fn notify(self) -> (shown: (Outgoing, Interaction<NeedType>))
        ensures
            shown.0@ == OutgoingView::Keyboard(CHOOSE_ACTION@, InteractionType::keyboard_spec()),
            shown.1.chat_spec() == self.chat_spec(),
            shown.1.user_spec() == self.user_spec(),
            shown.1.ty_spec() == self.ty_spec(),
    {
        let message = Outgoing::Keyboard(
            String::from_str(CHOOSE_ACTION),
            InteractionType::keyboard(),
        );
        (message, self.infer_state())
    }
}

} // verus!
