//! Episode ingestion for a podcast search bot: the decisions of the import
//! pipeline, its configuration and the bot's small rules, with their proofs.

pub mod bot;
pub mod config;
pub mod text;
pub mod transcript;
