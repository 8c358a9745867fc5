//! Agent runtime abstraction.
//!
//! A runtime adapter is how an agent process is actually driven: started,
//! sent a message, asked for its status, stopped. The orchestrator works
//! with any adapter through [`AgentRuntime`].

pub mod pi;

pub use pi::PiRuntime;

use vstd::prelude::*;
use crate::error::RembrandtError;
use crate::isolation::IsolationContext;

verus! {

/// Runtime-specific session identifier.
#[derive(Debug)]
pub struct RuntimeSessionId(pub String);

impl Clone for RuntimeSessionId {
    fn clone(&self) -> (copy: Self)
        ensures
            copy == *self,
    {
        RuntimeSessionId(self.0.clone())
    }
}

/// Minimal runtime session handle tracked by the orchestrator.
#[derive(Debug)]
pub struct AgentHandle {
    pub runtime_session_id: RuntimeSessionId,
    pub agent_id: String,
    pub model: Option<String>,
    /// Whatever else the runtime wants known of the session, as pairs of a
    /// key and a value.
    pub metadata: Vec<(String, String)>,
}

/// Runtime lifecycle status.
#[derive(Debug)]
pub enum RuntimeAgentStatus {
    Starting,
    Running,
    Idle,
    Completed,
    Failed(String),
    Stopped,
}

/// How an agent process is driven.
pub trait AgentRuntime {
    /// The short name of the runtime.
    fn name(&self) -> &'static str;

    /// Start the agent `agent_id` in `workspace`. Must not leak resources on
    /// failure.
    fn spawn(
        &self,
        agent_id: &str,
        workspace: &IsolationContext,
        prompt: Option<&str>,
        model: Option<&str>,
    ) -> Result<AgentHandle, RembrandtError>;

    /// Deliver a steering message; fails if the runtime does not support
    /// messaging.
    fn send_message(&self, runtime_session_id: &RuntimeSessionId, message: &str) -> Result<
        (),
        RembrandtError,
    >;

    /// The lifecycle status of the session.
    fn status(&self, runtime_session_id: &RuntimeSessionId) -> Result<
        RuntimeAgentStatus,
        RembrandtError,
    >;

    /// Request orderly termination; fails if the runtime cannot stop the
    /// session.
    fn stop(&self, runtime_session_id: &RuntimeSessionId) -> Result<(), RembrandtError>;
}

} // verus!
