//! The error taxonomy used on every boundary of the crate.

use vstd::prelude::*;
use vstd::string::*;
use crate::text::join_text;

verus! {

/// Everything that can go wrong in the orchestration core.
///
/// Errors raised by the outside world (git, the database, the file system,
/// a terminal) are carried as the message that the failing operation gave.
#[derive(Debug)]
pub enum RembrandtError {
    /// A git operation failed.
    Git(String),
    /// The state database reported an error.
    Database(String),
    /// A file-system operation failed.
    Io(String),
    /// An agent could not be found or driven.
    Agent(String),
    /// A worktree could not be provisioned or removed.
    Worktree(String),
    /// The daemon could not serve a request.
    Daemon(String),
    /// No session with this id is registered.
    SessionNotFound(String),
    /// A pseudo-terminal operation failed.
    Pty(String),
    /// The runtime adapter failed or does not support the operation.
    Runtime(String),
    /// Persisted state could not be interpreted.
    State(String),
    /// A competition could not proceed.
    Competition(String),
}

impl RembrandtError {
    /// The fixed text that introduces the detail of each kind of error.
    pub open spec fn spec_prefix(&self) -> Seq<char> {
        match self {
            RembrandtError::Git(_) => "Git operation failed: "@,
            RembrandtError::Database(_) => "Database error: "@,
            RembrandtError::Io(_) => "IO error: "@,
            RembrandtError::Agent(_) => "Agent error: "@,
            RembrandtError::Worktree(_) => "Worktree error: "@,
            RembrandtError::Daemon(_) => "Daemon error: "@,
            RembrandtError::SessionNotFound(_) => "Session not found: "@,
            RembrandtError::Pty(_) => "PTY error: "@,
            RembrandtError::Runtime(_) => "Runtime error: "@,
            RembrandtError::State(_) => "State error: "@,
            RembrandtError::Competition(_) => "Competition error: "@,
        }
    }

    /// The detail carried by the error.
    pub open spec fn spec_detail(&self) -> Seq<char> {
        match self {
            RembrandtError::Git(m) => m@,
            RembrandtError::Database(m) => m@,
            RembrandtError::Io(m) => m@,
            RembrandtError::Agent(m) => m@,
            RembrandtError::Worktree(m) => m@,
            RembrandtError::Daemon(m) => m@,
            RembrandtError::SessionNotFound(m) => m@,
            RembrandtError::Pty(m) => m@,
            RembrandtError::Runtime(m) => m@,
            RembrandtError::State(m) => m@,
            RembrandtError::Competition(m) => m@,
        }
    }

    /// The detail carried by the error: the message of the failed operation,
    /// or the id that was not found.
    pub fn detail(&self) -> (detail: &str)
        ensures
            detail@ == self.spec_detail(),
    {
        match self {
            RembrandtError::Git(m) => m.as_str(),
            RembrandtError::Database(m) => m.as_str(),
            RembrandtError::Io(m) => m.as_str(),
            RembrandtError::Agent(m) => m.as_str(),
            RembrandtError::Worktree(m) => m.as_str(),
            RembrandtError::Daemon(m) => m.as_str(),
            RembrandtError::SessionNotFound(m) => m.as_str(),
            RembrandtError::Pty(m) => m.as_str(),
            RembrandtError::Runtime(m) => m.as_str(),
            RembrandtError::State(m) => m.as_str(),
            RembrandtError::Competition(m) => m.as_str(),
        }
    }

    /// The error as one line of text for the operator.
    pub fn message(&self) -> (text: String)
        ensures
            text@ == self.spec_prefix() + self.spec_detail(),
    {
        let prefix = match self {
            RembrandtError::Git(_) => "Git operation failed: ",
            RembrandtError::Database(_) => "Database error: ",
            RembrandtError::Io(_) => "IO error: ",
            RembrandtError::Agent(_) => "Agent error: ",
            RembrandtError::Worktree(_) => "Worktree error: ",
            RembrandtError::Daemon(_) => "Daemon error: ",
            RembrandtError::SessionNotFound(_) => "Session not found: ",
            RembrandtError::Pty(_) => "PTY error: ",
            RembrandtError::Runtime(_) => "Runtime error: ",
            RembrandtError::State(_) => "State error: ",
            RembrandtError::Competition(_) => "Competition error: ",
        };
        join_text(prefix, self.detail())
    }
}

} // verus!
