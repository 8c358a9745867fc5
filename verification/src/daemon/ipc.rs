//! The protocol between the daemon and its clients.
//!
//! Clients send commands and receive responses; attached clients also
//! receive events.

use vstd::prelude::*;
use vstd::string::*;
use crate::daemon::manager::SessionInfo;
use crate::daemon::session::SessionId;
use crate::text::join_text;

verus! {

/// Commands that can be sent to the daemon.
#[derive(Debug)]
pub enum DaemonCommand {
    /// Spawn a new agent session.
    Spawn { agent_id: String, command: String, args: Vec<String>, workdir: String },
    /// Send a nudge to wake a stalled agent.
    Nudge { session_id: SessionId },
    /// Write data to a session's terminal.
    Write { session_id: SessionId, data: Vec<u8> },
    /// Kill a session.
    Kill { session_id: SessionId },
    /// List all sessions.
    List,
    /// List sessions for a specific agent.
    ListByAgent { agent_id: String },
    /// Get session info.
    GetSession { session_id: SessionId },
    /// Attach to a session (start streaming output).
    Attach { session_id: SessionId },
    /// Detach from a session (stop streaming).
    Detach { session_id: SessionId },
    /// Get buffered output history.
    GetHistory { session_id: SessionId },
    /// Resize a session's terminal.
    Resize { session_id: SessionId, rows: u16, cols: u16 },
    /// Ping the daemon (health check).
    Ping,
    /// Request daemon shutdown.
    Shutdown,
}

impl DaemonCommand {
    /// The session that the command addresses, for the commands that
    /// address one.
    pub open spec fn spec_session_id(&self) -> Option<SessionId> {
        match self {
            DaemonCommand::Nudge { session_id } => Some(*session_id),
            DaemonCommand::Write { session_id, .. } => Some(*session_id),
            DaemonCommand::Kill { session_id } => Some(*session_id),
            DaemonCommand::GetSession { session_id } => Some(*session_id),
            DaemonCommand::Attach { session_id } => Some(*session_id),
            DaemonCommand::Detach { session_id } => Some(*session_id),
            DaemonCommand::GetHistory { session_id } => Some(*session_id),
            DaemonCommand::Resize { session_id, .. } => Some(*session_id),
            _ => None,
        }
    }

    /// The session that the command addresses, for the commands that
    /// address one.
    pub fn session_id(&self) -> (id: Option<&SessionId>)
        ensures
            match id {
                Some(found) => self.spec_session_id() == Some(*found),
                None => self.spec_session_id() is None,
            },
    {
        match self {
            DaemonCommand::Nudge { session_id } => Some(session_id),
            DaemonCommand::Write { session_id, .. } => Some(session_id),
            DaemonCommand::Kill { session_id } => Some(session_id),
            DaemonCommand::GetSession { session_id } => Some(session_id),
            DaemonCommand::Attach { session_id } => Some(session_id),
            DaemonCommand::Detach { session_id } => Some(session_id),
            DaemonCommand::GetHistory { session_id } => Some(session_id),
            DaemonCommand::Resize { session_id, .. } => Some(session_id),
            _ => None,
        }
    }
}

/// Responses from the daemon.
#[derive(Debug)]
#[allow(inconsistent_fields)]
pub enum DaemonResponse {
    /// Success with optional message.
    Done { message: Option<String> },
    /// Session was spawned.
    Spawned { session_id: SessionId },
    /// List of sessions.
    Sessions { sessions: Vec<SessionInfo> },
    /// Single session info.
    Session { info: SessionInfo },
    /// Output data (for attach and history).
    Output { data: Vec<u8> },
    /// Pong response to ping.
    Pong,
    /// Error occurred.
    Error { message: String },
}

/// Events streamed from the daemon to attached clients.
#[derive(Debug)]
pub enum DaemonEvent {
    /// New output from a session.
    Output { session_id: SessionId, data: Vec<u8> },
    /// Session status changed.
    StatusChanged { session_id: SessionId, status: String },
    /// Session exited.
    Exited { session_id: SessionId, code: i32 },
}

/// The socket on which the daemon listens: `rembrandt.sock` in the runtime
/// directory of the user where there is one, else
/// `/tmp/rembrandt-<user>.sock`, with `unknown` for a user without a name.
pub fn default_socket_path(runtime_dir: Option<&str>, user: Option<&str>) -> (path: String)
    ensures
        path@ == match runtime_dir {
            Some(dir) => dir@ + "/rembrandt.sock"@,
            None => "/tmp/rembrandt-"@ + match user {
                Some(name) => name@,
                None => "unknown"@,
            } + ".sock"@,
        },
{
    match runtime_dir {
        Some(dir) => join_text(dir, "/rembrandt.sock"),
        None => {
            let mut path = join_text(
                "/tmp/rembrandt-",
                match user {
                    Some(name) => name,
                    None => "unknown",
                },
            );
            path.append(".sock");
            path
        },
    }
}

} // verus!
