//! Subcommands of the command-line client.
pub mod auth;
