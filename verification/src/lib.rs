//! Core of a terminal completion assistant: the messages a shell-side client
//! and the completion daemon exchange, their line-delimited wire encoding, the
//! daemon's lifecycle and per-session decisions, the client's decisions, and
//! the state machine behind the interactive selection list.
//!
//! Nothing here touches a socket, a file or a terminal. The program built on
//! this library performs those effects and reports what happened; every
//! decision about what to do next is taken, and proved, here.

pub mod client;
pub mod daemon;
pub mod parser;
pub mod tui;
