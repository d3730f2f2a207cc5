//! The records that the application keeps.

pub mod agent;
pub mod config;
pub mod document;
pub mod environment;
pub mod project;
pub mod provider;
pub mod system;
pub mod workspace;
