//! What can go wrong in a pipeline run.

use crate::text::{decimal, push_decimal, push_signed_decimal, signed_decimal};
use vstd::prelude::*;
use vstd::std_specs::convert::FromSpecImpl;
use vstd::string::*;

verus! {

/// reqwest's error: any failure of an HTTP request or of reading its response.
#[verifier::external_type_specification]
#[verifier::external_body]
pub struct ExReqwestError(reqwest::Error);

/// std's I/O error.
#[verifier::external_type_specification]
#[verifier::external_body]
pub struct ExIoError(std::io::Error);

/// tokio's error for a task that panicked or was cancelled.
#[verifier::external_type_specification]
#[verifier::external_body]
pub struct ExJoinError(tokio::task::JoinError);

/// The MongoDB driver's error.
#[verifier::external_type_specification]
#[verifier::external_body]
pub struct ExMongoError(mongodb::error::Error);

/// serde_json's error.
#[verifier::external_type_specification]
#[verifier::external_body]
pub struct ExSerdeJsonError(serde_json::Error);

/// std's error for a lock whose holder panicked.
#[verifier::external_type_specification]
#[verifier::external_body]
#[verifier::reject_recursive_types(T)]
pub struct ExPoisonError<T>(std::sync::PoisonError<T>);

/// The failure of one stage operation, and so of the run that drained it.
#[derive(Debug)]
pub enum JobManagerError {
    /// Network or transport failure.
    Reqwest(reqwest::Error),
    /// Filesystem failure.
    Io(std::io::Error),
    /// A task ended without a result.
    Tokio(tokio::task::JoinError),
    /// The datastore reported an error.
    Mongo(mongodb::error::Error),
    /// A shared collection of task handles was left poisoned.
    Mutex,
    /// A document could not be read or written as JSON.
    Serde(serde_json::Error),
    /// The datastore holds no episode with this id.
    NotFound(u32),
    /// The audio normalizer, run for this episode, ended with this exit code.
    Process(u32, i32),
}

impl JobManagerError {
    /// The fixed words that open the message of each kind of error.
    pub open spec fn prefix(&self) -> Seq<char> {
        match self {
            JobManagerError::Reqwest(_) => "Reqwest error: "@,
            JobManagerError::Io(_) => "IO error: "@,
            JobManagerError::Tokio(_) => "Tokio error: "@,
            JobManagerError::Mongo(_) => "MongoDB error: "@,
            JobManagerError::Mutex => "Mutex error"@,
            JobManagerError::Serde(_) => "Serde error: "@,
            JobManagerError::NotFound(_) => "Episode not found: "@,
            JobManagerError::Process(_, _) => "Normalizer failed for episode "@,
        }
    }

    /// The whole message of an error that holds no outside cause.
    pub open spec fn own_message(&self) -> Seq<char> {
        match self {
            JobManagerError::NotFound(id) => self.prefix() + decimal(*id as nat),
            JobManagerError::Process(id, code) => self.prefix() + decimal(*id as nat)
                + " with exit code "@ + signed_decimal(*code as int),
            _ => self.prefix(),
        }
    }

    /// Whether the error wraps an error of a crate or of std.
    pub open spec fn has_cause(&self) -> bool {
        !(self is Mutex || self is NotFound || self is Process)
    }

    /// The message shown for the error: the words of its kind, then the
    /// cause's own text.
    pub fn message(&self) -> (text: String)
        ensures
            text@.len() >= self.prefix().len(),
            text@.subrange(0, self.prefix().len() as int) == self.prefix(),
            !self.has_cause() ==> text@ == self.own_message(),
    {
        match self {
            JobManagerError::Reqwest(e) => {
                let cause = e.to_string();
                String::from_str("Reqwest error: ").concat(cause.as_str())
            },
            JobManagerError::Io(e) => {
                let cause = e.to_string();
                String::from_str("IO error: ").concat(cause.as_str())
            },
            JobManagerError::Tokio(e) => {
                let cause = e.to_string();
                String::from_str("Tokio error: ").concat(cause.as_str())
            },
            JobManagerError::Mongo(e) => {
                let cause = e.to_string();
                String::from_str("MongoDB error: ").concat(cause.as_str())
            },
            JobManagerError::Mutex => String::from_str("Mutex error"),
            JobManagerError::Serde(e) => {
                let cause = e.to_string();
                String::from_str("Serde error: ").concat(cause.as_str())
            },
            JobManagerError::NotFound(id) => {
                let mut text = String::from_str("Episode not found: ");
                push_decimal(&mut text, *id as u64);
                text
            },
            JobManagerError::Process(id, code) => {
                let mut text = String::from_str("Normalizer failed for episode ");
                push_decimal(&mut text, *id as u64);
                text.append(" with exit code ");
                push_signed_decimal(&mut text, *code as i64);
                text
            },
        }
    }
}

impl From<reqwest::Error> for JobManagerError {
    fn from(e: reqwest::Error) -> (err: Self) {
        JobManagerError::Reqwest(e)
    }
}

impl FromSpecImpl<reqwest::Error> for JobManagerError {
    open spec fn obeys_from_spec() -> bool {
        true
    }

    open spec fn from_spec(e: reqwest::Error) -> Self {
        JobManagerError::Reqwest(e)
    }
}

impl From<std::io::Error> for JobManagerError {
    fn from(e: std::io::Error) -> (err: Self) {
        JobManagerError::Io(e)
    }
}

impl FromSpecImpl<std::io::Error> for JobManagerError {
    open spec fn obeys_from_spec() -> bool {
        true
    }

    open spec fn from_spec(e: std::io::Error) -> Self {
        JobManagerError::Io(e)
    }
}

impl From<tokio::task::JoinError> for JobManagerError {
    fn from(e: tokio::task::JoinError) -> (err: Self) {
        JobManagerError::Tokio(e)
    }
}

impl FromSpecImpl<tokio::task::JoinError> for JobManagerError {
    open spec fn obeys_from_spec() -> bool {
        true
    }

    open spec fn from_spec(e: tokio::task::JoinError) -> Self {
        JobManagerError::Tokio(e)
    }
}

impl From<mongodb::error::Error> for JobManagerError {
    fn from(e: mongodb::error::Error) -> (err: Self) {
        JobManagerError::Mongo(e)
    }
}

impl FromSpecImpl<mongodb::error::Error> for JobManagerError {
    open spec fn obeys_from_spec() -> bool {
        true
    }

    open spec fn from_spec(e: mongodb::error::Error) -> Self {
        JobManagerError::Mongo(e)
    }
}

impl From<serde_json::Error> for JobManagerError {
    fn from(e: serde_json::Error) -> (err: Self) {
        JobManagerError::Serde(e)
    }
}

impl FromSpecImpl<serde_json::Error> for JobManagerError {
    open spec fn obeys_from_spec() -> bool {
        true
    }

    open spec fn from_spec(e: serde_json::Error) -> Self {
        JobManagerError::Serde(e)
    }
}

impl<T> From<std::sync::PoisonError<T>> for JobManagerError {
    fn from(e: std::sync::PoisonError<T>) -> (err: Self) {
        JobManagerError::Mutex
    }
}

impl<T> FromSpecImpl<std::sync::PoisonError<T>> for JobManagerError {
    open spec fn obeys_from_spec() -> bool {
        true
    }

    open spec fn from_spec(e: std::sync::PoisonError<T>) -> Self {
        JobManagerError::Mutex
    }
}

} // verus!
