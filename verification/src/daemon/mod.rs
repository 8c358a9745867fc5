//! Supervised terminal sessions: output history, session lifecycle and the
//! registry of sessions.

pub mod buffer;
pub mod ipc;
pub mod logger;
pub mod manager;
pub mod session;

pub use buffer::RingBuffer;
pub use ipc::{DaemonCommand, DaemonEvent, DaemonResponse};
pub use manager::{ExitedSession, SessionInfo, SessionManager};
pub use session::{PtySession, SessionId, SessionStatus};

use vstd::prelude::*;
use vstd::string::*;

verus! {

/// Client side of the daemon's socket.
#[derive(Debug)]
pub struct DaemonClient {
    socket_path: String,
}

impl DaemonClient {
    pub closed spec fn spec_socket_path(&self) -> Seq<char> {
        self.socket_path@
    }

    /// A client for the daemon that listens on `socket_path`.
    pub fn new(socket_path: String) -> (client: Self)
        ensures
            client.spec_socket_path() == socket_path@,
    {
        DaemonClient { socket_path }
    }

    /// The socket to connect to.
    pub fn socket_path(&self) -> (path: &str)
        ensures
            path@ == self.spec_socket_path(),
    {
        self.socket_path.as_str()
    }
}

} // verus!
