//! The orchestration service: isolation, runtime and persistent state
//! behind one interface.
//!
//! The orchestrator talks to the runtime adapter itself. What has to happen
//! in the repository and in the store it hands to its caller as plans and
//! actions, to be carried out in order.

use vstd::prelude::*;
use vstd::string::*;
use crate::error::RembrandtError;
use crate::isolation::{
    BranchIsolation, IsolationContext, IsolationMode, IsolationPlan, IsolationStrategy,
    WorktreeIsolation,
};
use crate::runtime::{AgentHandle, AgentRuntime, RuntimeAgentStatus, RuntimeSessionId};
use crate::state::{opt_text, SessionRecord, SessionStatus, Statement, StateStore};
use crate::text::clone_opt_text;
use crate::timestamp::Timestamp;
use crate::worktree::{is_remove_plan, WorktreeProbe, WorktreeStep};

verus! {

/// Parameters for spawning an agent session.
#[derive(Debug)]
pub struct SpawnRequest {
    pub agent_id: String,
    pub base_branch: String,
    pub isolation_mode: IsolationMode,
    pub prompt: Option<String>,
    pub model: Option<String>,
    pub task_id: Option<String>,
}

/// Summary returned after a successful spawn.
#[derive(Debug)]
pub struct SpawnResult {
    pub session: SessionRecord,
    pub workspace: IsolationContext,
}

/// One operation on the store.
#[derive(Debug)]
pub enum StoreAction {
    /// Store the record (see [`StateStore::upsert_session`]).
    UpsertSession(SessionRecord),
    /// Set the status of the agent's session (see
    /// [`StateStore::update_status`]).
    UpdateStatus { agent_id: String, status: SessionStatus },
    /// Record that the agent was seen (see [`StateStore::touch_heartbeat`]).
    TouchHeartbeat { agent_id: String, detail: String },
}

impl StoreAction {
    /// Whether this is the heartbeat of `agent_id` with the note `detail`.
    pub open spec fn is_heartbeat(&self, agent_id: Seq<char>, detail: Seq<char>) -> bool {
        self matches StoreAction::TouchHeartbeat { agent_id: who, detail: note } && who@ == agent_id
            && note@ == detail
    }

    /// Whether this sets the status of the session of `agent_id` to
    /// `status`.
    pub open spec fn is_status_update(&self, agent_id: Seq<char>, status: SessionStatus) -> bool {
        self matches StoreAction::UpdateStatus { agent_id: who, status: set } && who@ == agent_id
            && set == status
    }
}

/// How a spawn goes on once the runtime has answered.
#[derive(Debug)]
pub enum SpawnStep {
    /// The runtime failed. The workspace is to be given up again (see
    /// [`Orchestrator::rollback`]); then the spawn fails with `error`.
    /// Nothing goes to the store.
    RollBack { workspace: IsolationContext, error: RembrandtError },
    /// The agent is running. The actions are to be carried out on the
    /// store, in order; if all succeed, the spawn succeeds with `result`.
    Persist { actions: Vec<StoreAction>, result: SpawnResult },
}

/// The persisted status for a runtime status.
pub open spec fn spec_map_runtime_status(status: RuntimeAgentStatus) -> SessionStatus {
    match status {
        RuntimeAgentStatus::Starting => SessionStatus::Starting,
        RuntimeAgentStatus::Running => SessionStatus::Active,
        RuntimeAgentStatus::Idle => SessionStatus::Idle,
        RuntimeAgentStatus::Completed => SessionStatus::Completed,
        RuntimeAgentStatus::Failed(_) => SessionStatus::Failed,
        RuntimeAgentStatus::Stopped => SessionStatus::Stopped,
    }
}

/// The persisted status for a runtime status. The map is total: starting,
/// idle, completed, failed and stopped keep their names, and running is
/// persisted as active.
pub fn map_runtime_status(status: RuntimeAgentStatus) -> (mapped: SessionStatus)
    ensures
        mapped == spec_map_runtime_status(status),
{
    match status {
        RuntimeAgentStatus::Starting => SessionStatus::Starting,
        RuntimeAgentStatus::Running => SessionStatus::Active,
        RuntimeAgentStatus::Idle => SessionStatus::Idle,
        RuntimeAgentStatus::Completed => SessionStatus::Completed,
        RuntimeAgentStatus::Failed(_) => SessionStatus::Failed,
        RuntimeAgentStatus::Stopped => SessionStatus::Stopped,
    }
}

/// Whether `record` is the record of a session that has just been spawned
/// for `req` in `workspace` by the runtime `runtime_kind`, which answered
/// with `handle` at `now`.
pub open spec fn is_spawned_record(
    record: SessionRecord,
    req: SpawnRequest,
    workspace: IsolationContext,
    runtime_kind: Seq<char>,
    handle: AgentHandle,
    now: Timestamp,
) -> bool {
    &&& record.agent_id == req.agent_id
    &&& record.runtime_kind@ == runtime_kind
    &&& record.runtime_session_id == Some(handle.runtime_session_id.0)
    &&& record.isolation_mode == workspace.mode
    &&& record.branch_name == workspace.branch_name
    &&& record.checkout_path == workspace.checkout_path
    &&& record.task_id == req.task_id
    &&& record.status == SessionStatus::Starting
    &&& record.model == handle.model
    &&& record.created_at == now
    &&& record.updated_at == now
}

/// Whether `step` is how the spawn of `req` in `workspace` goes on once the
/// runtime `runtime_kind` has answered with `spawned` at `now`: a roll-back
/// with the runtime's error if it failed; otherwise the record of the
/// session, to be stored and followed by a heartbeat with the note
/// `spawned`.
pub open spec fn is_spawn_step(
    step: SpawnStep,
    req: SpawnRequest,
    workspace: IsolationContext,
    runtime_kind: Seq<char>,
    spawned: Result<AgentHandle, RembrandtError>,
    now: Timestamp,
) -> bool {
    match spawned {
        Err(error) => step == (SpawnStep::RollBack { workspace, error }),
        Ok(handle) => step matches SpawnStep::Persist { actions, result } && {
            &&& is_spawned_record(result.session, req, workspace, runtime_kind, handle, now)
            &&& result.workspace == workspace
            &&& actions@.len() == 2
            &&& actions@[0] == StoreAction::UpsertSession(result.session)
            &&& actions@[1].is_heartbeat(req.agent_id@, "spawned"@)
        },
    }
}

/// How a spawn goes on once the runtime has answered with `spawned` at
/// `now`.
///
/// If the runtime failed, the workspace is rolled back and its error is
/// the error of the spawn; nothing is stored. Otherwise the session is
/// recorded as starting, created and updated at `now`, and the agent's
/// heartbeat is touched with the note `spawned`.
pub fn spawn_step(
    req: SpawnRequest,
    workspace: IsolationContext,
    runtime_kind: &str,
    spawned: Result<AgentHandle, RembrandtError>,
    now: Timestamp,
) -> (step: SpawnStep)
    ensures
        is_spawn_step(step, req, workspace, runtime_kind@, spawned, now),
{
    match spawned {
        Err(error) => SpawnStep::RollBack { workspace, error },
        Ok(handle) => {
            let session = SessionRecord {
                agent_id: req.agent_id,
                runtime_kind: String::from_str(runtime_kind),
                runtime_session_id: Some(handle.runtime_session_id.0),
                isolation_mode: workspace.mode,
                branch_name: workspace.branch_name.clone(),
                checkout_path: workspace.checkout_path.clone(),
                task_id: req.task_id,
                status: SessionStatus::Starting,
                model: handle.model,
                created_at: now,
                updated_at: now,
            };
            let mut actions: Vec<StoreAction> = Vec::new();
            actions.push(StoreAction::UpsertSession(session.clone()));
            actions.push(
                StoreAction::TouchHeartbeat {
                    agent_id: session.agent_id.clone(),
                    detail: String::from_str("spawned"),
                },
            );
            SpawnStep::Persist { actions, result: SpawnResult { session, workspace } }
        },
    }
}

/// The outcome of a status refresh once the runtime has answered with
/// `reported`: its error unchanged; otherwise the mapped status, to be
/// stored for the agent and followed by a heartbeat with the note
/// `status-refreshed`.
pub fn refresh_step(agent_id: &str, reported: Result<RuntimeAgentStatus, RembrandtError>) -> (step:
    Result<(SessionStatus, Vec<StoreAction>), RembrandtError>)
    ensures
        match reported {
            Err(error) => step == Err::<(SessionStatus, Vec<StoreAction>), RembrandtError>(error),
            Ok(status) => step matches Ok((mapped, actions)) && {
                &&& mapped == spec_map_runtime_status(status)
                &&& actions@.len() == 2
                &&& actions@[0].is_status_update(agent_id@, mapped)
                &&& actions@[1].is_heartbeat(agent_id@, "status-refreshed"@)
            },
        },
{
    match reported {
        Err(error) => Err(error),
        Ok(status) => {
            let mapped = map_runtime_status(status);
            let mut actions: Vec<StoreAction> = Vec::new();
            actions.push(
                StoreAction::UpdateStatus { agent_id: String::from_str(agent_id), status: mapped },
            );
            actions.push(
                StoreAction::TouchHeartbeat {
                    agent_id: String::from_str(agent_id),
                    detail: String::from_str("status-refreshed"),
                },
            );
            Ok((mapped, actions))
        },
    }
}

/// What a kill stores for an agent that has a record: the status
/// `Stopped`, followed by a heartbeat with the note `stopped`.
pub fn kill_actions(agent_id: &str) -> (actions: Vec<StoreAction>)
    ensures
        actions@.len() == 2,
        actions@[0].is_status_update(agent_id@, SessionStatus::Stopped),
        actions@[1].is_heartbeat(agent_id@, "stopped"@),
{
    let mut actions: Vec<StoreAction> = Vec::new();
    actions.push(
        StoreAction::UpdateStatus {
            agent_id: String::from_str(agent_id),
            status: SessionStatus::Stopped,
        },
    );
    actions.push(
        StoreAction::TouchHeartbeat {
            agent_id: String::from_str(agent_id),
            detail: String::from_str("stopped"),
        },
    );
    actions
}

/// The outcome of steering once the runtime has answered with `sent`: its
/// error unchanged; otherwise a heartbeat with the note `message-sent`.
pub fn steer_step(agent_id: &str, sent: Result<(), RembrandtError>) -> (step: Result<
    Vec<StoreAction>,
    RembrandtError,
>)
    ensures
        match sent {
            Err(error) => step == Err::<Vec<StoreAction>, RembrandtError>(error),
            Ok(()) => step matches Ok(actions) && actions@.len() == 1 && actions@[0].is_heartbeat(
                agent_id@,
                "message-sent"@,
            ),
        },
{
    match sent {
        Err(error) => Err(error),
        Ok(()) => {
            let mut actions: Vec<StoreAction> = Vec::new();
            actions.push(
                StoreAction::TouchHeartbeat {
                    agent_id: String::from_str(agent_id),
                    detail: String::from_str("message-sent"),
                },
            );
            Ok(actions)
        },
    }
}

/// Orchestration service coordinating runtime, isolation and persistent
/// state.
pub struct Orchestrator<R: AgentRuntime> {
    repo_path: String,
    runtime: R,
    state: StateStore,
}

impl<R: AgentRuntime> Orchestrator<R> {
    pub closed spec fn spec_repo_path(&self) -> Seq<char> {
        self.repo_path@
    }

    pub closed spec fn spec_runtime(&self) -> R {
        self.runtime
    }

    pub closed spec fn spec_state(&self) -> StateStore {
        self.state
    }

    /// An orchestrator for the repository at `repo_path` that drives its
    /// agents through `runtime` and keeps its state in the store of that
    /// repository.
    pub fn new(repo_path: &str, runtime: R) -> (orchestrator: Self)
        ensures
            orchestrator.spec_repo_path() == repo_path@,
            orchestrator.spec_runtime() == runtime,
            orchestrator.spec_state().spec_db_path() == repo_path@ + "/.rembrandt/state.db"@,
    {
        Orchestrator {
            repo_path: String::from_str(repo_path),
            runtime,
            state: StateStore::open(repo_path),
        }
    }

    /// The store of the orchestrator.
    pub fn state(&self) -> (store: &StateStore)
        ensures
            *store == self.spec_state(),
    {
        &self.state
    }

    /// The repository of the orchestrator.
    pub fn repo_path(&self) -> (path: &str)
        ensures
            path@ == self.spec_repo_path(),
    {
        self.repo_path.as_str()
    }

    /// The first step of a spawn: plan the workspace of the agent under the
    /// isolation mode that the request asks for, given what `probe` found
    /// in the repository. Once the plan has been carried out, the spawn goes
    /// on with [`Self::spawn_agent`].
    pub fn prepare(&self, req: &SpawnRequest, probe: &WorktreeProbe) -> (plan: IsolationPlan)
        ensures
            plan.context.is_for(req.isolation_mode, self.spec_repo_path(), req.agent_id@),
            req.isolation_mode == IsolationMode::Worktree ==> crate::worktree::steps_match(
                plan.steps@,
                crate::worktree::spec_create_steps(*probe),
                crate::worktree::step_names(self.spec_repo_path(), req.agent_id@, req.base_branch@),
            ),
            req.isolation_mode == IsolationMode::Branch ==> crate::worktree::steps_match(
                plan.steps@,
                crate::isolation::spec_branch_steps(*probe),
                crate::worktree::step_names(self.spec_repo_path(), req.agent_id@, req.base_branch@),
            ),
    {
        match req.isolation_mode {
            IsolationMode::Branch => BranchIsolation.prepare(
                self.repo_path.as_str(),
                req.agent_id.as_str(),
                req.base_branch.as_str(),
                probe,
            ),
            IsolationMode::Worktree => WorktreeIsolation.prepare(
                self.repo_path.as_str(),
                req.agent_id.as_str(),
                req.base_branch.as_str(),
                probe,
            ),
        }
    }

    /// Spawn the agent of `req` in its provisioned `workspace`.
    ///
    /// The runtime is asked to start the agent with the prompt and the
    /// model of the request. If it fails, the result is a roll-back of the
    /// workspace with the runtime's error, and nothing is stored. Otherwise
    /// the session is recorded as starting (see [`spawn_step`]).
    pub fn spawn_agent(&self, req: SpawnRequest, workspace: IsolationContext) -> (step: SpawnStep)
        ensures
            match step {
                SpawnStep::RollBack { workspace: given_up, error } => given_up == workspace,
                SpawnStep::Persist { actions, result } => {
                    &&& result.workspace == workspace
                    &&& result.session.agent_id == req.agent_id
                    &&& result.session.runtime_session_id is Some
                    &&& result.session.isolation_mode == workspace.mode
                    &&& result.session.branch_name == workspace.branch_name
                    &&& result.session.checkout_path == workspace.checkout_path
                    &&& result.session.task_id == req.task_id
                    &&& result.session.status == SessionStatus::Starting
                    &&& result.session.created_at == result.session.updated_at
                    &&& actions@.len() == 2
                    &&& actions@[0] == StoreAction::UpsertSession(result.session)
                    &&& actions@[1].is_heartbeat(req.agent_id@, "spawned"@)
                },
            },
    {
        let spawned = self.runtime.spawn(
            req.agent_id.as_str(),
            &workspace,
            match &req.prompt {
                Some(prompt) => Some(prompt.as_str()),
                None => None,
            },
            match &req.model {
                Some(model) => Some(model.as_str()),
                None => None,
            },
        );
        spawn_step(req, workspace, self.runtime.name(), spawned, Timestamp::now())
    }

    /// What gives the workspace of a failed spawn up again, given what
    /// `probe` found: for a worktree, its removal, branch included; for a
    /// branch in the shared checkout, nothing.
    pub fn rollback(&self, workspace: &IsolationContext, probe: &WorktreeProbe) -> (steps: Vec<
        WorktreeStep,
    >)
        ensures
            workspace.mode == IsolationMode::Worktree ==> is_remove_plan(
                steps@,
                workspace.repo_path@,
                workspace.agent_id@,
                true,
                *probe,
            ),
            workspace.mode == IsolationMode::Branch ==> steps@.len() == 0,
    {
        match workspace.mode {
            IsolationMode::Branch => BranchIsolation.cleanup(workspace, probe),
            IsolationMode::Worktree => WorktreeIsolation.cleanup(workspace, probe),
        }
    }

    /// The statement that lists the sessions of all agents; read its rows
    /// with [`StateStore::read_sessions`].
    pub fn list_agents(&self) -> (statement: Statement)
        ensures
            statement.is(crate::state::LIST_SESSIONS_SQL@, Seq::empty()),
    {
        self.state.list_sessions()
    }

    /// The statement that selects the session of `agent_id`; read its row
    /// with [`StateStore::read_session`].
    pub fn get_status(&self, agent_id: &str) -> (statement: Statement)
        ensures
            statement.is(crate::state::GET_SESSION_SQL@, seq![Some(agent_id@)]),
    {
        self.state.get_session(agent_id)
    }

    /// Refresh the status of `agent_id` from the runtime, given the record
    /// that the store has of the agent.
    ///
    /// Without a record, or with a record that names no runtime session,
    /// there is nothing to refresh and the runtime is not asked. Otherwise
    /// the runtime is asked for the status; its error, if any, is returned
    /// unchanged, and its status is mapped and stored (see
    /// [`refresh_step`]).
    pub fn refresh_runtime_status(&self, agent_id: &str, record: &Option<SessionRecord>) -> (step:
        Result<Option<(SessionStatus, Vec<StoreAction>)>, RembrandtError>)
        ensures
            !(*record matches Some(r) && r.runtime_session_id is Some) ==> step == Ok::<
                Option<(SessionStatus, Vec<StoreAction>)>,
                RembrandtError,
            >(None),
            (*record matches Some(r) && r.runtime_session_id is Some) ==> (match step {
                Err(_) => true,
                Ok(None) => false,
                Ok(Some((mapped, actions))) => {
                    &&& actions@.len() == 2
                    &&& actions@[0].is_status_update(agent_id@, mapped)
                    &&& actions@[1].is_heartbeat(agent_id@, "status-refreshed"@)
                },
            }),
    {
        match record {
            Some(r) => match &r.runtime_session_id {
                Some(runtime_session_id) => {
                    let reported = self.runtime.status(&RuntimeSessionId(runtime_session_id.clone()));
                    match refresh_step(agent_id, reported) {
                        Ok(refreshed) => Ok(Some(refreshed)),
                        Err(e) => Err(e),
                    }
                },
                None => Ok(None),
            },
            None => Ok(None),
        }
    }

    /// Kill the agent `agent_id`, given the record that the store has of
    /// the agent.
    ///
    /// Without a record nothing happens. Otherwise the runtime is asked to
    /// stop the session, if the record names one; whether or not it
    /// succeeds, the session is stored as stopped (see [`kill_actions`]).
    pub fn kill_agent(&self, agent_id: &str, record: &Option<SessionRecord>) -> (actions: Vec<
        StoreAction,
    >)
        ensures
            *record is None ==> actions@.len() == 0,
            *record is Some ==> {
                &&& actions@.len() == 2
                &&& actions@[0].is_status_update(agent_id@, SessionStatus::Stopped)
                &&& actions@[1].is_heartbeat(agent_id@, "stopped"@)
            },
    {
        match record {
            Some(r) => {
                match &r.runtime_session_id {
                    Some(runtime_session_id) => {
                        let _ = self.runtime.stop(&RuntimeSessionId(runtime_session_id.clone()));
                    },
                    None => {},
                }
                kill_actions(agent_id)
            },
            None => Vec::new(),
        }
    }

    /// Send `message` to the agent `agent_id`, given the record that the
    /// store has of the agent.
    ///
    /// Without a record, or with a record that names no runtime session,
    /// this succeeds and does nothing: the runtime is not called and no
    /// heartbeat is touched. Otherwise the runtime is asked to deliver the
    /// message; its error, if any, is returned unchanged, and a delivery is
    /// followed by a heartbeat (see [`steer_step`]).
    pub fn steer_agent(&self, agent_id: &str, message: &str, record: &Option<SessionRecord>) -> (step:
        Result<Vec<StoreAction>, RembrandtError>)
        ensures
            !(*record matches Some(r) && r.runtime_session_id is Some) ==> (step matches Ok(
                actions,
            ) && actions@.len() == 0),
            (*record matches Some(r) && r.runtime_session_id is Some) ==> (match step {
                Err(_) => true,
                Ok(actions) => actions@.len() == 1 && actions@[0].is_heartbeat(
                    agent_id@,
                    "message-sent"@,
                ),
            }),
    {
        match record {
            Some(r) => match &r.runtime_session_id {
                Some(runtime_session_id) => {
                    let sent = self.runtime.send_message(
                        &RuntimeSessionId(runtime_session_id.clone()),
                        message,
                    );
                    steer_step(agent_id, sent)
                },
                None => Ok(Vec::new()),
            },
            None => Ok(Vec::new()),
        }
    }

    /// The statement that carries out `action` on the store at `now`.
    pub fn statement_for(&self, action: &StoreAction, now: &Timestamp) -> (statement: Result<
        Statement,
        RembrandtError,
    >)
        ensures
            match *action {
                StoreAction::UpsertSession(record) => match statement {
                    Ok(s) => s.is(
                        crate::state::UPSERT_SESSION_SQL@,
                        crate::state::spec_session_row(record),
                    ),
                    Err(error) => (record.created_at.spec_to_rfc3339() is None
                        || record.updated_at.spec_to_rfc3339() is None) && error is State,
                },
                StoreAction::UpdateStatus { agent_id, status } => match statement {
                    Ok(s) => s.is(
                        crate::state::UPDATE_STATUS_SQL@,
                        seq![Some(status.spec_tag()), now.spec_to_rfc3339(), Some(agent_id@)],
                    ),
                    Err(error) => now.spec_to_rfc3339() is None && error is State,
                },
                StoreAction::TouchHeartbeat { agent_id, detail } => match statement {
                    Ok(s) => s.is(
                        crate::state::TOUCH_HEARTBEAT_SQL@,
                        seq![Some(agent_id@), now.spec_to_rfc3339(), Some(detail@)],
                    ),
                    Err(error) => now.spec_to_rfc3339() is None && error is State,
                },
            },
    {
        match action {
            StoreAction::UpsertSession(record) => self.state.upsert_session(record),
            StoreAction::UpdateStatus { agent_id, status } => self.state.update_status(
                agent_id.as_str(),
                *status,
                now,
            ),
            StoreAction::TouchHeartbeat { agent_id, detail } => {
                let note = Some(detail.as_str());
                let statement = self.state.touch_heartbeat(agent_id.as_str(), note, now);
                assert(seq![
                    Some(agent_id@),
                    now.spec_to_rfc3339(),
                    match note {
                        Some(d) => Some(d@),
                        None => None,
                    },
                ] =~= seq![Some(agent_id@), now.spec_to_rfc3339(), Some(detail@)]);
                statement
            },
        }
    }
}

/// Spawn roll-back. When the runtime fails, the spawn stores nothing: it
/// ends in a roll-back of the very workspace that was provisioned, with the
/// runtime's error. And the roll-back of a worktree takes away whatever is
/// found of it: the registration, the directory and the branch.
pub proof fn lemma_spawn_rollback(
    req: SpawnRequest,
    workspace: IsolationContext,
    runtime_kind: Seq<char>,
    error: RembrandtError,
    now: Timestamp,
    step: SpawnStep,
    found: WorktreeProbe,
    cleanup: Seq<WorktreeStep>,
)
    requires
        is_spawn_step(step, req, workspace, runtime_kind, Err(error), now),
        workspace.mode == IsolationMode::Worktree,
        is_remove_plan(cleanup, workspace.repo_path@, workspace.agent_id@, true, found),
    ensures
        step == (SpawnStep::RollBack { workspace, error }),
        !(step is Persist),
        found.registered ==> exists|i: int|
            0 <= i < cleanup.len() && (#[trigger] cleanup[i]).action is PruneWorktree,
        found.directory != crate::worktree::DirectoryState::Missing ==> exists|i: int|
            0 <= i < cleanup.len() && (#[trigger] cleanup[i]).action is RemoveDirectory
                && cleanup[i].required,
        found.branch != crate::worktree::BranchState::Missing ==> exists|i: int|
            0 <= i < cleanup.len() && (#[trigger] cleanup[i]).action is DeleteBranch,
{
    let shape = crate::worktree::spec_remove_steps(found, true);
    if found.registered {
        assert(shape[0].0 == crate::worktree::StepKind::PruneWorktree);
        assert(cleanup[0].action is PruneWorktree);
    }
    let after_prune: int = if found.registered {
        1
    } else {
        0
    };
    if found.directory != crate::worktree::DirectoryState::Missing {
        assert(shape[after_prune].0 == crate::worktree::StepKind::RemoveDirectory);
        assert(cleanup[after_prune].action is RemoveDirectory);
    }
    if found.branch != crate::worktree::BranchState::Missing {
        let last = shape.len() - 1;
        assert(shape[last].0 == crate::worktree::StepKind::DeleteBranch);
        assert(cleanup[last].action is DeleteBranch);
    }
}

} // verus!
