//! Relay logic for pulling packet-capture attachments out of chat messages,
//! and a fuzzy resolver from free-text server names to server records.
//!
//! - `snowflake`: the shape of identifiers and of capture file names.
//! - `discord`: the decisions around the message fetch and the download.
//! - `session`: one attachment pull as a state machine over those decisions.
//! - `error`: the failures of a pull and how each is reported.
//! - `resolver`: exact, then fuzzy, resolution of a server name.
//! - `reply`: the bot's answers to its slash commands.
//! - `bot`: what the bot does when a message carries a capture file.
//! - `db`: the records of the audit log.
pub mod bot;
pub mod db;
pub mod discord;
pub mod error;
pub mod reply;
pub mod resolver;
pub mod session;
pub mod snowflake;
