//! The commands of the command line.

use vstd::prelude::*;

verus! {

/// The command line: a command, and the repository it applies to.
#[derive(Debug)]
pub struct Cli {
    pub command: Commands,
    /// Path to the repository; the current directory where none is given.
    pub repo: Option<String>,
}

/// The commands.
#[derive(Debug)]
pub enum Commands {
    /// Initialize the orchestrator in the current repository.
    Init,
    /// Spawn a new agent in an isolated worktree.
    Spawn {
        /// Agent type.
        agent: String,
        /// Task to assign.
        task: Option<String>,
        /// Base branch to create the worktree from.
        branch: String,
    },
    /// List active agent sessions.
    List {
        /// Show detailed output.
        verbose: bool,
    },
    /// Attach to an agent's terminal.
    Attach {
        /// Agent session id or index.
        agent: String,
    },
    /// Send a message to agents.
    Broadcast {
        /// Message to send.
        message: String,
        /// Send only to this agent.
        to: Option<String>,
    },
    /// Merge an agent's work back to main.
    Merge {
        /// Agent session id.
        agent: String,
        /// Skip the decision check.
        no_check: bool,
    },
    /// Stop an agent session.
    Stop {
        /// Agent session id.
        agent: String,
    },
    /// Clean up completed agent worktrees.
    Cleanup {
        /// Remove all worktrees, active ones included.
        all: bool,
    },
    /// Launch the dashboard.
    Dashboard,
    /// Show the status of all integrations.
    Status,
}

/// The base branch of a spawn for which none is named.
pub const DEFAULT_BASE_BRANCH: &'static str = "main";

} // verus!
