//! An engine that runs one agent process per conversation, turns what the
//! agent writes into events for a user interface, and carries the user's
//! answers to the agent's requests for approval back to it. Interactive
//! terminal sessions are kept in the same way.
//!
//! The engine decides and computes; it starts no process and reads no
//! stream itself. Its callers hold the processes, hand it every line, chunk
//! and exit status, and carry out what it hands back.

pub mod auth;
pub mod commands;
pub mod config;
pub mod events;
pub mod json;
pub mod models;
pub mod paths;
pub mod pty;
pub mod registry;
pub mod search;
pub mod sessions;
pub mod streams;
pub mod teams;
pub mod text;
pub mod utils;
pub mod wire;
