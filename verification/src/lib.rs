//! Verified core of a command-line client and autonomous paper-trading bot
//! for the Kraken exchange.
pub mod bot;
pub mod commands;
pub mod config;
pub mod errors;
pub mod text;
