//! The errors a session can report to its caller.

use vstd::prelude::*;
use crate::text::prefixed;

verus! {

/// Why an operation of the client failed.
#[derive(Debug)]
pub enum ClientError {
    /// No agent binary was configured and none was found.
    DiscoveryFailed,
    /// The operating system could not start the agent process.
    SpawnFailed { cause: String },
    /// A submission could not be written as JSON. The submissions of this
    /// library are made of strings, which JSON can always hold, so none of
    /// them gives this error.
    Encode,
    /// The session no longer accepts submissions.
    SessionClosed,
}

impl ClientError {
    /// True exactly for the errors that end session creation.
    pub open spec fn is_creation_error(self) -> bool {
        self is DiscoveryFailed || self is SpawnFailed
    }

    /// The error in words.
    pub open spec fn spec_message(self) -> Seq<char> {
        match self {
            ClientError::DiscoveryFailed => "Could not find codex executable"@,
            ClientError::SpawnFailed { cause } => "Failed to start codex: "@ + cause@,
            ClientError::Encode => "Failed to encode submission"@,
            ClientError::SessionClosed => "Session is closed"@,
        }
    }

    /// The error in words, for a log or for the user.
    pub fn message(&self) -> (text: String)
        ensures
            text@ == self.spec_message(),
    {
        match self {
            ClientError::DiscoveryFailed => String::from_str("Could not find codex executable"),
            ClientError::SpawnFailed { cause } => prefixed(
                "Failed to start codex: ",
                cause.as_str(),
            ),
            ClientError::Encode => String::from_str("Failed to encode submission"),
            ClientError::SessionClosed => String::from_str("Session is closed"),
        }
    }

    /// Whether this error ends session creation, as opposed to failing a
    /// single call on a live session.
    pub fn fatal_to_creation(&self) -> (b: bool)
        ensures
            b == self.is_creation_error(),
    {
        match self {
            ClientError::DiscoveryFailed => true,
            ClientError::SpawnFailed { .. } => true,
            ClientError::Encode => false,
            ClientError::SessionClosed => false,
        }
    }
}

} // verus!
