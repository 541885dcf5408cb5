//! What can go wrong while the bot answers, and what the user is told.

use vstd::prelude::*;
use vstd::std_specs::convert::FromSpecImpl;
use vstd::string::*;

verus! {

/// teloxide's error of a request to Telegram.
#[verifier::external_type_specification]
#[verifier::external_body]
pub struct ExRequestError(teloxide::RequestError);

/// A search that could not be answered, with what the user is told about it.
#[derive(Debug)]
pub struct SearchError {
    pub response: String,
}

impl SearchError {
    /// What the user is told.
    pub fn respond_client(&self) -> (text: &str)
        ensures
            text@ == self.response@,
    {
        self.response.as_str()
    }
}

/// What can go wrong while an interaction is kept.
#[derive(Debug)]
pub enum InteractionError {
    /// The datastore reported an error.
    Mongo(mongodb::error::Error),
    /// A request to Telegram failed.
    Teloxide(teloxide::RequestError),
}

impl InteractionError {
    /// The fixed words that open the error's message.
    pub open spec fn prefix(&self) -> Seq<char> {
        match self {
            InteractionError::Mongo(_) => "MongoDB error: "@,
            InteractionError::Teloxide(_) => "Teloxide error: "@,
        }
    }

    /// The message shown for the error: the words of its kind, then the
    /// cause's own text.
    pub fn message(&self) -> (text: String)
        ensures
            text@.len() >= self.prefix().len(),
            text@.subrange(0, self.prefix().len() as int) == self.prefix(),
    {
        match self {
            InteractionError::Mongo(e) => {
                let cause = e.to_string();
                String::from_str("MongoDB error: ").concat(cause.as_str())
            },
            InteractionError::Teloxide(e) => {
                let cause = e.to_string();
                String::from_str("Teloxide error: ").concat(cause.as_str())
            },
        }
    }
}

impl From<mongodb::error::Error> for InteractionError {
    fn from(e: mongodb::error::Error) -> (err: Self) {
        InteractionError::Mongo(e)
    }
}

impl FromSpecImpl<mongodb::error::Error> for InteractionError {
    open spec fn obeys_from_spec() -> bool {
        true
    }

    open spec fn from_spec(e: mongodb::error::Error) -> Self {
        InteractionError::Mongo(e)
    }
}

impl From<teloxide::RequestError> for InteractionError {
    fn from(e: teloxide::RequestError) -> (err: Self) {
        InteractionError::Teloxide(e)
    }
}

impl FromSpecImpl<teloxide::RequestError> for InteractionError {
    open spec fn obeys_from_spec() -> bool {
        true
    }

    open spec fn from_spec(e: teloxide::RequestError) -> Self {
        InteractionError::Teloxide(e)
    }
}

/// Why the bot could not answer.
#[derive(Debug)]
pub enum BotError {
    Mongo(mongodb::error::Error),
    Serde(serde_json::Error),
    Teloxide(teloxide::RequestError),
    NotImplemented,
    SearchError(SearchError),
    MalformedQuery,
    Interaction(InteractionError),
}

impl BotError {
    /// What the user is told about each kind of error but a failed search.
    pub open spec fn kind_text(&self) -> Seq<char> {
        match self {
            BotError::Mongo(_) => "errore database"@,
            BotError::Serde(_) => "errore di serializzazione"@,
            BotError::Teloxide(_) => "errore telegram"@,
            BotError::NotImplemented => "questa funzionalità non è implementata"@,
            BotError::SearchError(e) => e.response@,
            BotError::MalformedQuery => "query malformata"@,
            BotError::Interaction(_) => "errore interazione"@,
        }
    }

    /// What the user is told: for a failed search what the search says, for
    /// every other error a fixed opening and the words of its kind.
    pub open spec fn respond_client_spec(&self) -> Seq<char> {
        match self {
            BotError::SearchError(e) => e.response@,
            _ => "c'è stato un problema nel generare la risposta: "@ + self.kind_text(),
        }
    }

    /// The answer that is sent to the user in place of the one that failed.
    pub fn respond_client(&self) -> (text: String)
        ensures
            text@ == self.respond_client_spec(),
    {
        let kind = match self {
            BotError::SearchError(e) => {
                return String::from_str(e.respond_client());
            },
            BotError::Mongo(_) => "errore database",
            BotError::Serde(_) => "errore di serializzazione",
            BotError::Teloxide(_) => "errore telegram",
            BotError::NotImplemented => "questa funzionalità non è implementata",
            BotError::MalformedQuery => "query malformata",
            BotError::Interaction(_) => "errore interazione",
        };
        String::from_str("c'è stato un problema nel generare la risposta: ").concat(kind)
    }

    /// The error's name in the log.
    pub fn message(&self) -> (text: String)
        ensures
            text@ == "BotError"@,
    {
        String::from_str("BotError")
    }
}

impl From<mongodb::error::Error> for BotError {
    fn from(e: mongodb::error::Error) -> (err: Self) {
        BotError::Mongo(e)
    }
}

impl FromSpecImpl<mongodb::error::Error> for BotError {
    open spec fn obeys_from_spec() -> bool {
        true
    }

    open spec fn from_spec(e: mongodb::error::Error) -> Self {
        BotError::Mongo(e)
    }
}

impl From<serde_json::Error> for BotError {
    fn from(e: serde_json::Error) -> (err: Self) {
        BotError::Serde(e)
    }
}

impl FromSpecImpl<serde_json::Error> for BotError {
    open spec fn obeys_from_spec() -> bool {
        true
    }

    open spec fn from_spec(e: serde_json::Error) -> Self {
        BotError::Serde(e)
    }
}

impl From<teloxide::RequestError> for BotError {
    fn from(e: teloxide::RequestError) -> (err: Self) {
        BotError::Teloxide(e)
    }
}

impl FromSpecImpl<teloxide::RequestError> for BotError {
    open spec fn obeys_from_spec() -> bool {
        true
    }

    open spec fn from_spec(e: teloxide::RequestError) -> Self {
        BotError::Teloxide(e)
    }
}

impl From<SearchError> for BotError {
    fn from(e: SearchError) -> (err: Self) {
        BotError::SearchError(e)
    }
}

impl FromSpecImpl<SearchError> for BotError {
    open spec fn obeys_from_spec() -> bool {
        true
    }

    open spec fn from_spec(e: SearchError) -> Self {
        BotError::SearchError(e)
    }
}

impl From<InteractionError> for BotError {
    fn from(e: InteractionError) -> (err: Self) {
        BotError::Interaction(e)
    }
}

impl FromSpecImpl<InteractionError> for BotError {
    open spec fn obeys_from_spec() -> bool {
        true
    }

    open spec fn from_spec(e: InteractionError) -> Self {
        BotError::Interaction(e)
    }
}

} // verus!
