//! A client for an agent process that speaks newline-delimited JSON over its
//! standard streams: how the process is invoked, how messages are framed, how
//! the three stream pumps decide their next move, and how a session is shut
//! down. Process spawning and pipe I/O are left to the embedding program.

pub mod client;
pub mod codec;
pub mod command;
pub mod error;
pub mod launch;
pub mod protocol;
pub mod pump;
pub mod reading;
pub mod text;
pub mod toggles;
