//! The `pi` runtime adapter: a stand-in that starts nothing.

use vstd::prelude::*;
use vstd::string::*;
use crate::error::RembrandtError;
use crate::isolation::IsolationContext;
use crate::runtime::{AgentHandle, AgentRuntime, RuntimeAgentStatus, RuntimeSessionId};
use crate::text::join_text;

verus! {

/// Placeholder `pi` runtime adapter.
///
/// It hands out handles without starting a process, reports every session
/// as starting, and supports neither messages nor stopping.
#[derive(Debug, Clone, Copy)]
pub struct PiRuntime;

impl PiRuntime {
    pub fn new() -> Self {
        PiRuntime
    }
}

impl Default for PiRuntime {
    fn default() -> Self {
        PiRuntime
    }
}

impl AgentRuntime for PiRuntime {
    fn name(&self) -> (name: &'static str)
        ensures
            name@ == "pi"@,
    {
        "pi"
    }

    /// Always succeeds: the session is `stub-<agent_id>`, the model is the
    /// one asked for, and the metadata say that this is a stub.
    fn spawn(
        &self,
        agent_id: &str,
        workspace: &IsolationContext,
        prompt: Option<&str>,
        model: Option<&str>,
    ) -> (spawned: Result<AgentHandle, RembrandtError>)
        ensures
            spawned matches Ok(handle) && {
                &&& handle.runtime_session_id.0@ == "stub-"@ + agent_id@
                &&& handle.agent_id@ == agent_id@
                &&& match model {
                    Some(m) => handle.model matches Some(chosen) && chosen@ == m@,
                    None => handle.model is None,
                }
                &&& handle.metadata@.len() == 1
                &&& handle.metadata@[0].0@ == "status"@
                &&& handle.metadata@[0].1@ == "stub"@
            },
    {
        let mut metadata: Vec<(String, String)> = Vec::new();
        metadata.push((String::from_str("status"), String::from_str("stub")));
        Ok(
            AgentHandle {
                runtime_session_id: RuntimeSessionId(join_text("stub-", agent_id)),
                agent_id: String::from_str(agent_id),
                model: match model {
                    Some(m) => Some(String::from_str(m)),
                    None => None,
                },
                metadata,
            },
        )
    }

    /// Always fails: the adapter cannot deliver messages.
    fn send_message(&self, runtime_session_id: &RuntimeSessionId, message: &str) -> (sent: Result<
        (),
        RembrandtError,
    >)
        ensures
            sent matches Err(RembrandtError::Runtime(reason)) && reason@
                == "PiRuntime.send_message not implemented"@,
    {
        Err(RembrandtError::Runtime(String::from_str("PiRuntime.send_message not implemented")))
    }

    /// Every session is reported as starting.
    fn status(&self, runtime_session_id: &RuntimeSessionId) -> (status: Result<
        RuntimeAgentStatus,
        RembrandtError,
    >)
        ensures
            status == Ok::<RuntimeAgentStatus, RembrandtError>(RuntimeAgentStatus::Starting),
    {
        Ok(RuntimeAgentStatus::Starting)
    }

    /// Always fails: the adapter cannot stop a session.
    fn stop(&self, runtime_session_id: &RuntimeSessionId) -> (stopped: Result<(), RembrandtError>)
        ensures
            stopped matches Err(RembrandtError::Runtime(reason)) && reason@
                == "PiRuntime.stop not implemented"@,
    {
        Err(RembrandtError::Runtime(String::from_str("PiRuntime.stop not implemented")))
    }
}

} // verus!
