//! The protocol spoken with the terminal front end: message kinds, event
//! and command names, and payloads. The connection itself lives outside.

pub mod commands;
pub mod events;
pub mod protocol;
