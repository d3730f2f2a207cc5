//! What the application does with its records.

pub mod backup;
pub mod config;
pub mod database;
pub mod environment;
pub mod export;
pub mod writeflow;
