//! Client side of the devzat plugin protocol: authenticated calls, chat
//! messages, and the listener and command session state machines.

pub mod auth;
pub mod client;
pub mod command;
pub mod error;
pub mod listener;
pub mod types;
