//! Core of a desktop writing and document-management application.
//!
//! The crate holds the entity models, the derived text statistics, the
//! statements that the persistence layer sends to its SQLite store together
//! with the decoding of the rows that come back, and the decisions of the
//! configuration service. Talking to the store, the file system and the
//! network is left to the embedding application.

pub mod commands;
pub mod error;
pub mod ident;
pub mod json;
pub mod models;
pub mod services;
pub mod sql;
pub mod strings;
pub mod text;
pub mod time;
pub mod utils;
