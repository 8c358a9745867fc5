//! Agent registry: the agent types that can be spawned and the sessions
//! that are tracked.

use vstd::prelude::*;
use vstd::string::*;
use crate::agent::{AgentSession, AgentStatus, AgentType};
use crate::error::RembrandtError;
use crate::text::{join_text, same_text};

verus! {

/// Configuration for an agent type.
#[derive(Debug)]
pub struct AgentConfig {
    pub agent_type: AgentType,
    /// Command to spawn the agent.
    pub command: String,
    /// Default arguments.
    pub args: Vec<String>,
    /// Whether this agent supports ACP.
    pub supports_acp: bool,
}

/// Whether some configuration of `configs` is for the agent type
/// `agent_type`.
pub open spec fn has_config(configs: Seq<AgentConfig>, agent_type: AgentType) -> bool {
    exists|i: int| 0 <= i < configs.len() && (#[trigger] configs[i]).agent_type.spec_same(&agent_type)
}

/// The position of the configuration for the agent type `agent_type`.
pub open spec fn config_position(configs: Seq<AgentConfig>, agent_type: AgentType) -> int {
    choose|i: int| 0 <= i < configs.len() && (#[trigger] configs[i]).agent_type.spec_same(&agent_type)
}

/// No two configurations are for the same agent type.
pub open spec fn distinct_types(configs: Seq<AgentConfig>) -> bool {
    forall|a: int, b: int|
        0 <= a < b < configs.len() ==> !(#[trigger] configs[a]).agent_type.spec_same(
            &(#[trigger] configs[b]).agent_type,
        )
}

/// Whether some session of `sessions` has the id `id`.
pub open spec fn has_session(sessions: Seq<AgentSession>, id: Seq<char>) -> bool {
    exists|i: int| 0 <= i < sessions.len() && (#[trigger] sessions[i]).id@ == id
}

/// The position of the session with the id `id`.
pub open spec fn session_position(sessions: Seq<AgentSession>, id: Seq<char>) -> int {
    choose|i: int| 0 <= i < sessions.len() && (#[trigger] sessions[i]).id@ == id
}

/// No two sessions share an id.
pub open spec fn distinct_sessions(sessions: Seq<AgentSession>) -> bool {
    forall|i: int, j: int|
        0 <= i < j < sessions.len() ==> (#[trigger] sessions[i]).id@ != (#[trigger] sessions[j]).id@
}

/// The sessions that are active or idle, in the order of `sessions`.
pub open spec fn live_sessions(sessions: Seq<AgentSession>) -> Seq<AgentSession>
    decreases sessions.len(),
{
    if sessions.len() == 0 {
        Seq::empty()
    } else {
        let rest = live_sessions(sessions.drop_last());
        if sessions.last().status.spec_is_live() {
            rest.push(sessions.last())
        } else {
            rest
        }
    }
}

/// Registry of available agent configurations and tracked sessions.
#[derive(Debug)]
pub struct AgentRegistry {
    /// Available agent configurations, one for each type at most.
    available: Vec<AgentConfig>,
    /// Tracked sessions, in the order in which they were first registered.
    sessions: Vec<AgentSession>,
}

impl AgentRegistry {
    /// The tracked sessions, in the order in which they were first
    /// registered.
    pub closed spec fn sessions(&self) -> Seq<AgentSession> {
        self.sessions@
    }

    /// The configurations that are available.
    pub closed spec fn available(&self) -> Seq<AgentConfig> {
        self.available@
    }

    /// The representation invariant: no two sessions share an id, and no
    /// two configurations are for the same agent type.
    pub open spec fn wf(&self) -> bool {
        distinct_sessions(self.sessions()) && distinct_types(self.available())
    }

    /// A registry without sessions and without configurations.
    pub fn new() -> (registry: Self)
        ensures
            registry.wf(),
            registry.sessions().len() == 0,
            registry.available().len() == 0,
    {
        AgentRegistry { available: Vec::new(), sessions: Vec::new() }
    }

    fn find_config(&self, agent_type: &AgentType) -> (found: Option<usize>)
        requires
            self.wf(),
        ensures
            found is None <==> !has_config(self.available(), *agent_type),
            found matches Some(i) ==> i < self.available().len() && self.available()[i as int].agent_type.spec_same(
                agent_type,
            ) && i == config_position(self.available(), *agent_type),
    {
        let mut i: usize = 0;
        while i < self.available.len()
            invariant
                i <= self.available@.len(),
                self.wf(),
                forall|k: int|
                    0 <= k < i ==> !(#[trigger] self.available@[k]).agent_type.spec_same(agent_type),
            decreases self.available.len() - i,
        {
            if self.available[i].agent_type.same(agent_type) {
                proof {
                    let at = i as int;
                    let chosen = config_position(self.available@, *agent_type);
                    assert(self.available@[at].agent_type.spec_same(agent_type));
                    assert(self.available@[chosen].agent_type.spec_same(agent_type));
                    if chosen < at {
                        assert(!self.available@[chosen].agent_type.spec_same(
                            &self.available@[at].agent_type,
                        ));
                    } else if at < chosen {
                        assert(!self.available@[at].agent_type.spec_same(
                            &self.available@[chosen].agent_type,
                        ));
                    }
                }
                return Some(i);
            }
            i = i + 1;
        }
        None
    }

    /// Make `config` the configuration of its agent type, in place of the
    /// one that the type had, if it had one.
    pub fn register_config(&mut self, config: AgentConfig)
        requires
            old(self).wf(),
        ensures
            final(self).wf(),
            final(self).sessions() == old(self).sessions(),
            has_config(old(self).available(), config.agent_type) ==> final(self).available() == old(
                self,
            ).available().update(config_position(old(self).available(), config.agent_type), config),
            !has_config(old(self).available(), config.agent_type) ==> final(self).available()
                == old(self).available().push(config),
    {
        match self.find_config(&config.agent_type) {
            Some(i) => {
                self.available[i] = config;
                proof {
                    let before = old(self).available@;
                    assert(self.available@ =~= before.update(i as int, config));
                    assert forall|a: int, b: int|
                        0 <= a < b < self.available@.len() implies !(
                    #[trigger] self.available@[a]).agent_type.spec_same(
                        &(#[trigger] self.available@[b]).agent_type,
                    ) by {
                        assert(!before[a].agent_type.spec_same(&before[b].agent_type));
                    }
                }
            },
            None => {
                self.available.push(config);
                proof {
                    let before = old(self).available@;
                    assert forall|a: int, b: int|
                        0 <= a < b < self.available@.len() implies !(
                    #[trigger] self.available@[a]).agent_type.spec_same(
                        &(#[trigger] self.available@[b]).agent_type,
                    ) by {
                        if b < before.len() {
                            assert(!before[a].agent_type.spec_same(&before[b].agent_type));
                        } else {
                            assert(!before[a].agent_type.spec_same(&config.agent_type));
                        }
                    }
                }
            },
        }
    }

    /// The configuration of `agent_type`, if the type is available.
    pub fn get_config(&self, agent_type: &AgentType) -> (config: Option<&AgentConfig>)
        requires
            self.wf(),
        ensures
            config is None <==> !has_config(self.available(), *agent_type),
            config matches Some(found) ==> found.agent_type.spec_same(agent_type) && *found
                == self.available()[config_position(self.available(), *agent_type)],
    {
        match self.find_config(agent_type) {
            Some(i) => Some(&self.available[i]),
            None => None,
        }
    }

    fn find(&self, id: &str) -> (found: Option<usize>)
        requires
            self.wf(),
        ensures
            found is None <==> !has_session(self.sessions(), id@),
            found matches Some(i) ==> i < self.sessions().len() && self.sessions()[i as int].id@
                == id@ && i == session_position(self.sessions(), id@),
    {
        let mut i: usize = 0;
        while i < self.sessions.len()
            invariant
                i <= self.sessions@.len(),
                self.wf(),
                forall|k: int| 0 <= k < i ==> (#[trigger] self.sessions@[k]).id@ != id@,
            decreases self.sessions.len() - i,
        {
            if same_text(self.sessions[i].id.as_str(), id) {
                proof {
                    let at = i as int;
                    assert(self.sessions@[at].id@ == id@);
                    let chosen = session_position(self.sessions@, id@);
                    if chosen < at {
                        assert(self.sessions@[chosen].id@ != self.sessions@[at].id@);
                    } else if at < chosen {
                        assert(self.sessions@[at].id@ != self.sessions@[chosen].id@);
                    }
                }
                return Some(i);
            }
            i = i + 1;
        }
        None
    }

    /// Track `session`. A session that was tracked under the same id is
    /// replaced.
    pub fn register_session(&mut self, session: AgentSession)
        requires
            old(self).wf(),
        ensures
            final(self).wf(),
            final(self).available() == old(self).available(),
            has_session(old(self).sessions(), session.id@) ==> final(self).sessions() == old(
                self,
            ).sessions().update(session_position(old(self).sessions(), session.id@), session),
            !has_session(old(self).sessions(), session.id@) ==> final(self).sessions() == old(
                self,
            ).sessions().push(session),
    {
        match self.find(session.id.as_str()) {
            Some(i) => {
                self.sessions[i] = session;
                proof {
                    assert(self.sessions@ =~= old(self).sessions@.update(i as int, session));
                    assert forall|a: int, b: int| 0 <= a < b < self.sessions@.len() implies (
                    #[trigger] self.sessions@[a]).id@ != (#[trigger] self.sessions@[b]).id@ by {
                        assert(old(self).sessions@[a].id@ != old(self).sessions@[b].id@);
                    }
                }
            },
            None => {
                self.sessions.push(session);
                proof {
                    assert forall|a: int, b: int| 0 <= a < b < self.sessions@.len() implies (
                    #[trigger] self.sessions@[a]).id@ != (#[trigger] self.sessions@[b]).id@ by {
                        if b < old(self).sessions@.len() {
                            assert(old(self).sessions@[a].id@ != old(self).sessions@[b].id@);
                        } else {
                            assert(old(self).sessions@[a].id@ != session.id@);
                        }
                    }
                }
            },
        }
    }

    /// The sessions that are active or idle.
    pub fn active_sessions(&self) -> (live: Vec<&AgentSession>)
        ensures
            live@.len() == live_sessions(self.sessions()).len(),
            forall|i: int| 0 <= i < live@.len() ==> *(#[trigger] live@[i]) == live_sessions(
                self.sessions(),
            )[i],
    {
        let mut live: Vec<&AgentSession> = Vec::new();
        let mut i: usize = 0;
        while i < self.sessions.len()
            invariant
                i <= self.sessions@.len(),
                live@.len() == live_sessions(self.sessions@.take(i as int)).len(),
                forall|k: int| 0 <= k < live@.len() ==> *(#[trigger] live@[k]) == live_sessions(
                    self.sessions@.take(i as int),
                )[k],
            decreases self.sessions.len() - i,
        {
            let ghost prefix = self.sessions@.take(i as int);
            let ghost next = self.sessions@.take(i + 1);
            assert(next.drop_last() =~= prefix);
            assert(next.last() == self.sessions@[i as int]);
            if self.sessions[i].status.is_live() {
                live.push(&self.sessions[i]);
            }
            i = i + 1;
        }
        assert(self.sessions@.take(i as int) =~= self.sessions@);
        live
    }

    /// The session with the id `id`.
    pub fn get_session(&self, id: &str) -> (found: Option<&AgentSession>)
        requires
            self.wf(),
        ensures
            found is None <==> !has_session(self.sessions(), id@),
            found matches Some(session) ==> session.id@ == id@ && *session == self.sessions()[session_position(
                self.sessions(),
                id@,
            )],
    {
        match self.find(id) {
            Some(i) => Some(&self.sessions[i]),
            None => None,
        }
    }

    /// Set the status of the session `id`; an `Agent` error if no such
    /// session is tracked.
    pub fn update_status(&mut self, id: &str, status: AgentStatus) -> (result: Result<
        (),
        RembrandtError,
    >)
        requires
            old(self).wf(),
        ensures
            final(self).wf(),
            final(self).available() == old(self).available(),
            has_session(old(self).sessions(), id@) ==> result is Ok && final(self).sessions() == old(
                self,
            ).sessions().update(
                session_position(old(self).sessions(), id@),
                AgentSession {
                    status,
                    ..old(self).sessions()[session_position(old(self).sessions(), id@)]
                },
            ),
            !has_session(old(self).sessions(), id@) ==> *final(self) == *old(self) && (
            result matches Err(RembrandtError::Agent(message)) && message@ == "Session not found: "@
                + id@),
    {
        match self.find(id) {
            Some(i) => {
                self.sessions[i].status = status;
                proof {
                    assert(self.sessions@ =~= old(self).sessions@.update(
                        i as int,
                        AgentSession { status, ..old(self).sessions@[i as int] },
                    ));
                    assert forall|a: int, b: int| 0 <= a < b < self.sessions@.len() implies (
                    #[trigger] self.sessions@[a]).id@ != (#[trigger] self.sessions@[b]).id@ by {
                        assert(old(self).sessions@[a].id@ != old(self).sessions@[b].id@);
                    }
                }
                Ok(())
            },
            None => Err(RembrandtError::Agent(join_text("Session not found: ", id))),
        }
    }

    /// Stop tracking the session `id` and hand it back.
    pub fn remove_session(&mut self, id: &str) -> (removed: Option<AgentSession>)
        requires
            old(self).wf(),
        ensures
            final(self).wf(),
            final(self).available() == old(self).available(),
            !has_session(old(self).sessions(), id@) ==> removed is None && *final(self) == *old(self),
            has_session(old(self).sessions(), id@) ==> removed == Some(
                old(self).sessions()[session_position(old(self).sessions(), id@)],
            ) && final(self).sessions() == old(self).sessions().remove(
                session_position(old(self).sessions(), id@),
            ),
    {
        match self.find(id) {
            Some(i) => {
                let session = self.sessions.remove(i);
                proof {
                    assert forall|a: int, b: int| 0 <= a < b < self.sessions@.len() implies (
                    #[trigger] self.sessions@[a]).id@ != (#[trigger] self.sessions@[b]).id@ by {
                        let oa = if a < i {
                            a
                        } else {
                            a + 1
                        };
                        let ob = if b < i {
                            b
                        } else {
                            b + 1
                        };
                        assert(self.sessions@[a] == old(self).sessions@[oa]);
                        assert(self.sessions@[b] == old(self).sessions@[ob]);
                        assert(old(self).sessions@[oa].id@ != old(self).sessions@[ob].id@);
                    }
                }
                Some(session)
            },
            None => None,
        }
    }
}

} // verus!
