//! Sans-I/O core of an adapter between a line-delimited JSON-RPC client and an
//! interactive command-line tool that runs as a child process.
//!
//! The crate reads no stream, starts no process and keeps no clock.  It
//! decides: what a line from the client amounts to ([`protocol`]), which
//! method a request names and what it is answered with ([`agent`]), where the
//! tool is looked for, in which order a child is started, written to, read
//! from, interrupted and ended, and when its output makes up one complete
//! reply ([`bridge`]).  A driver does what [`agent::KiroAgent::step`] asks for
//! and hands back what came of it.

pub mod agent;
pub mod bridge;
pub mod json;
pub mod protocol;
pub mod session;
pub mod text;
