//! The core of a daemon that serves the bridge protocol, a line protocol over
//! TCP, to one local client at a time and relays between that client and the
//! sessions of the configured chat accounts.
//!
//! This crate holds what the daemon knows and decides: the messages of the
//! protocol and their lines, the registry of accounts, the queue of messages
//! for the client, the rules of receiving a line, and the reactions of the
//! daemon to what happens. It opens no socket and no file. Every function is
//! verified against its contract.

pub mod account;
pub mod backend;
pub mod daemon;
pub mod decimal;
pub mod grammar;
pub mod message;
pub mod queue;
pub mod roundtrip;
pub mod server;
pub mod text;
