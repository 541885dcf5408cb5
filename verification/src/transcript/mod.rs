//! The import pipeline: download, transcribe, convert, insert.

pub mod container;
pub mod data;
pub mod download;
pub mod error;
pub mod executor;
pub mod jobs;
pub mod transcribe;
