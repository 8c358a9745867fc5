//! Agents: the kinds that can be spawned, and the state of a session.

pub mod registry;

pub use registry::AgentConfig;
pub use registry::AgentRegistry;

use vstd::prelude::*;
use vstd::string::*;
use crate::timestamp::Timestamp;

verus! {

/// Supported agent types.
#[derive(Debug, PartialEq, Eq, Hash)]
pub enum AgentType {
    ClaudeCode,
    OpenCode,
    AmpCode,
    Codex,
    Aider,
    Custom(String),
}

impl Clone for AgentType {
    fn clone(&self) -> (copy: Self)
        ensures
            copy == *self,
    {
        match self {
            AgentType::ClaudeCode => AgentType::ClaudeCode,
            AgentType::OpenCode => AgentType::OpenCode,
            AgentType::AmpCode => AgentType::AmpCode,
            AgentType::Codex => AgentType::Codex,
            AgentType::Aider => AgentType::Aider,
            AgentType::Custom(name) => AgentType::Custom(name.clone()),
        }
    }
}

impl AgentType {
    /// Whether two types are the same: the same built-in type, or custom
    /// types of the same name.
    pub open spec fn spec_same(&self, other: &AgentType) -> bool {
        match (self, other) {
            (AgentType::ClaudeCode, AgentType::ClaudeCode) => true,
            (AgentType::OpenCode, AgentType::OpenCode) => true,
            (AgentType::AmpCode, AgentType::AmpCode) => true,
            (AgentType::Codex, AgentType::Codex) => true,
            (AgentType::Aider, AgentType::Aider) => true,
            (AgentType::Custom(a), AgentType::Custom(b)) => a@ == b@,
            _ => false,
        }
    }

    /// Whether two types are the same.
    #[verifier::when_used_as_spec(spec_same)]
    pub fn same(&self, other: &AgentType) -> (same: bool)
        ensures
            same == self.spec_same(other),
    {
        match (self, other) {
            (AgentType::ClaudeCode, AgentType::ClaudeCode) => true,
            (AgentType::OpenCode, AgentType::OpenCode) => true,
            (AgentType::AmpCode, AgentType::AmpCode) => true,
            (AgentType::Codex, AgentType::Codex) => true,
            (AgentType::Aider, AgentType::Aider) => true,
            (AgentType::Custom(a), AgentType::Custom(b)) => crate::text::same_text(
                a.as_str(),
                b.as_str(),
            ),
            _ => false,
        }
    }
}

/// Status of an agent session.
#[derive(Debug, PartialEq, Eq)]
pub enum AgentStatus {
    /// The agent is running and working.
    Active,
    /// The agent is idle, waiting for input.
    Idle,
    /// The agent completed its task.
    Completed,
    /// The agent encountered an error.
    Failed(String),
    /// The agent was stopped by the user.
    Stopped,
}

impl Clone for AgentStatus {
    fn clone(&self) -> (copy: Self)
        ensures
            copy == *self,
    {
        match self {
            AgentStatus::Active => AgentStatus::Active,
            AgentStatus::Idle => AgentStatus::Idle,
            AgentStatus::Completed => AgentStatus::Completed,
            AgentStatus::Failed(reason) => AgentStatus::Failed(reason.clone()),
            AgentStatus::Stopped => AgentStatus::Stopped,
        }
    }
}

impl AgentStatus {
    /// An agent is live while it is active or idle.
    pub open spec fn spec_is_live(&self) -> bool {
        self is Active || self is Idle
    }

    /// Whether the agent is active or idle.
    #[verifier::when_used_as_spec(spec_is_live)]
    pub fn is_live(&self) -> (live: bool)
        ensures
            live == self.spec_is_live(),
    {
        match self {
            AgentStatus::Active => true,
            AgentStatus::Idle => true,
            _ => false,
        }
    }

    /// An agent has finished once it has completed, failed or been
    /// stopped.
    pub open spec fn spec_is_finished(&self) -> bool {
        self is Completed || self is Failed || self is Stopped
    }

    /// Whether the agent has completed, failed or been stopped.
    #[verifier::when_used_as_spec(spec_is_finished)]
    pub fn is_finished(&self) -> (finished: bool)
        ensures
            finished == self.spec_is_finished(),
    {
        match self {
            AgentStatus::Completed => true,
            AgentStatus::Failed(_) => true,
            AgentStatus::Stopped => true,
            _ => false,
        }
    }
}

/// An agent session as the registry tracks it.
#[derive(Debug)]
pub struct AgentSession {
    /// Unique session id.
    pub id: String,
    /// Type of agent.
    pub agent_type: AgentType,
    /// Current status.
    pub status: AgentStatus,
    /// Path to the worktree this agent is using.
    pub worktree_path: String,
    /// Branch name for this agent's work.
    pub branch: String,
    /// Current task id.
    pub task_id: Option<String>,
    /// Process id if running.
    pub pid: Option<u32>,
    /// Files currently reserved by this agent.
    pub reserved_files: Vec<String>,
    /// When the session started.
    pub started_at: Timestamp,
    /// The competition the session takes part in.
    pub competition_id: Option<String>,
}

/// Whether an agent for which nothing is said gets a worktree of its own:
/// it does.
pub const ISOLATED_BY_DEFAULT: bool = true;

/// The flag by which the command `command` takes its initial prompt.
pub open spec fn spec_prompt_flag(command: Seq<char>) -> Seq<char> {
    if crate::text::spec_contains_text(command, "opencode"@) {
        "--prompt"@
    } else {
        "-p"@
    }
}

/// The arguments that hand `initial_prompt` to the agent started by
/// `command`: none without a prompt; otherwise the flag of the command,
/// `--prompt` for a command that holds `opencode` and `-p` for every other,
/// followed by the prompt.
pub fn prompt_args(command: &str, initial_prompt: Option<&str>) -> (args: Vec<String>)
    ensures
        match initial_prompt {
            None => args@.len() == 0,
            Some(prompt) => args@.len() == 2 && args@[0]@ == spec_prompt_flag(command@) && args@[1]@
                == prompt@,
        },
{
    let mut args: Vec<String> = Vec::new();
    match initial_prompt {
        None => {},
        Some(prompt) => {
            if crate::text::contains_text(command, "opencode") {
                args.push(String::from_str("--prompt"));
            } else {
                args.push(String::from_str("-p"));
            }
            args.push(String::from_str(prompt));
        },
    }
    args
}

} // verus!
