//! Where the persistent log of a session lives.
//!
//! The full output of every session is appended to a log file of its own,
//! raw bytes unchanged, so that it survives the session and the daemon.

use vstd::prelude::*;
use vstd::string::*;
use crate::text::join_text;

verus! {

/// Name of the directory of the logs, below the orchestrator's directory in
/// the home directory of the user.
pub const LOGS_DIR: &'static str = "logs";

/// The log file of the session `session_id` in the directory `logs_dir`:
/// `<logs_dir>/<session_id>.log`.
pub fn log_path_for_session(logs_dir: &str, session_id: &str) -> (path: String)
    ensures
        path@ == logs_dir@ + "/"@ + session_id@ + ".log"@,
{
    let mut path = join_text(logs_dir, "/");
    path.append(session_id);
    path.append(".log");
    path
}

} // verus!
