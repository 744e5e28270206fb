//! Account snapshots for Cursor and the Cursor Agent CLI: the verified logic
//! behind switching, capturing, importing, exporting and removing accounts.

pub mod text;
pub mod json;
pub mod config;
pub mod snapshot;
pub mod accounts;
pub mod agent_auth;
pub mod command;
pub mod cursor;
pub mod keychain;
pub mod unsupported;
pub mod auth_file;
pub mod about;
pub mod laws;
