//! The chat bot's rules: who may ask what, and how answers are written.

pub mod args;
pub mod command;
pub mod error;
pub mod format;
pub mod handler;
pub mod interaction;
pub mod markdown;
pub mod paginate;
pub mod reply;
pub mod user;

pub use error::BotError;
pub use interaction::Interaction;
pub use user::BotUser;
