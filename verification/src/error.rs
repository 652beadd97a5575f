//! Error taxonomy for session-coordination operations.

use vstd::prelude::*;

verus! {

/// The kinds of failure a coordination operation can report.
///
/// I/O and serialization failures are raised by the callers that perform the
/// reading and writing; they surface here as `FileSystemError` / `ParseError`
/// with a textual cause.
#[derive(Debug)]
pub enum Error {
    /// The workspace-management executable is not installed.
    HnNotFound,
    /// A workspace-management command failed.
    HnCommandFailed(String),
    /// No session record exists under this name.
    SessionNotFound(String),
    /// A session record already exists under this name.
    SessionAlreadyExists(String),
    /// No workbox exists under this name.
    WorkboxNotFound(String),
    /// The session name is not acceptable; the second field says why.
    InvalidSessionName(String, String),
    /// The agent-type tag is not acceptable.
    InvalidAgentType(String),
    /// The configuration could not be used.
    ConfigError(String),
    /// Reading or writing persistent state failed.
    FileSystemError(String),
    /// A persisted record or a command's output could not be parsed.
    ParseError(String),
    /// The context directory for a session is missing.
    ContextNotFound(String),
    /// No template exists under this name.
    TemplateNotFound(String),
    /// The session is locked; the second field names the owner.
    SessionLocked(String, String),
    /// No session name was given and none is implied.
    NoCurrentSession,
    /// Launching the AI tool failed.
    AiToolFailed(String),
    /// An argument was malformed.
    InvalidInput(String),
    /// No profile exists under this name.
    ProfileNotFound(String),
    /// Any other failure, described in text.
    Other(String),
}

/// Result type for session-coordination operations.
pub type HpResult<T> = Result<T, Error>;

} // verus!
