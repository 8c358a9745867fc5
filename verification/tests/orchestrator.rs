use rembrandt::isolation::{IsolationContext, IsolationMode};
use rembrandt::orchestrator::{
    kill_actions, map_runtime_status, refresh_step, spawn_step, steer_step, Orchestrator,
    SpawnRequest, SpawnStep, StoreAction,
};
use rembrandt::runtime::{
    AgentHandle, AgentRuntime, PiRuntime, RuntimeAgentStatus, RuntimeSessionId,
};
use rembrandt::state::{SessionRecord, SessionStatus};
use rembrandt::timestamp::Timestamp;
use rembrandt::worktree::{BranchState, DirectoryState, WorktreeAction, WorktreeProbe};
use rembrandt::RembrandtError;

/// A runtime whose agents run, and which fails where it is told to.
struct Scripted {
    spawn_fails: bool,
}

impl AgentRuntime for Scripted {
    fn name(&self) -> &'static str {
        "scripted"
    }

    fn spawn(
        &self,
        agent_id: &str,
        workspace: &IsolationContext,
        prompt: Option<&str>,
        model: Option<&str>,
    ) -> Result<AgentHandle, RembrandtError> {
        if self.spawn_fails {
            return Err(RembrandtError::Runtime("no such binary".to_string()));
        }
        Ok(AgentHandle {
            runtime_session_id: RuntimeSessionId(format!("run-{}", agent_id)),
            agent_id: agent_id.to_string(),
            model: model.map(str::to_string),
            metadata: vec![
                ("cwd".to_string(), workspace.checkout_path.clone()),
                ("prompt".to_string(), prompt.unwrap_or("").to_string()),
            ],
        })
    }

    fn send_message(&self, _id: &RuntimeSessionId, _message: &str) -> Result<(), RembrandtError> {
        Ok(())
    }

    fn status(&self, _id: &RuntimeSessionId) -> Result<RuntimeAgentStatus, RembrandtError> {
        Ok(RuntimeAgentStatus::Running)
    }

    fn stop(&self, _id: &RuntimeSessionId) -> Result<(), RembrandtError> {
        Err(RembrandtError::Runtime("already dead".to_string()))
    }
}

fn request(agent_id: &str, mode: IsolationMode) -> SpawnRequest {
    SpawnRequest {
        agent_id: agent_id.to_string(),
        base_branch: "main".to_string(),
        isolation_mode: mode,
        prompt: Some("fix the bug".to_string()),
        model: Some("large".to_string()),
        task_id: Some("task-1".to_string()),
    }
}

fn fresh() -> WorktreeProbe {
    WorktreeProbe {
        directory: DirectoryState::Missing,
        registered: false,
        branch: BranchState::Missing,
        branch_at_base: false,
    }
}

fn record_of(agent_id: &str, runtime_session_id: Option<&str>) -> SessionRecord {
    SessionRecord {
        agent_id: agent_id.to_string(),
        runtime_kind: "pi".to_string(),
        runtime_session_id: runtime_session_id.map(str::to_string),
        isolation_mode: IsolationMode::Worktree,
        branch_name: format!("rembrandt/{}", agent_id),
        checkout_path: "/repo".to_string(),
        task_id: None,
        status: SessionStatus::Active,
        model: None,
        created_at: Timestamp { secs: 1, nanos: 0 },
        updated_at: Timestamp { secs: 2, nanos: 0 },
    }
}

fn heartbeat(action: &StoreAction) -> (&str, &str) {
    match action {
        StoreAction::TouchHeartbeat { agent_id, detail } => (agent_id.as_str(), detail.as_str()),
        other => panic!("expected a heartbeat, got {:?}", other),
    }
}

fn status_update(action: &StoreAction) -> (&str, SessionStatus) {
    match action {
        StoreAction::UpdateStatus { agent_id, status } => (agent_id.as_str(), *status),
        other => panic!("expected a status update, got {:?}", other),
    }
}

#[test]
fn runtime_status_map_is_total() {
    assert_eq!(map_runtime_status(RuntimeAgentStatus::Starting), SessionStatus::Starting);
    assert_eq!(map_runtime_status(RuntimeAgentStatus::Running), SessionStatus::Active);
    assert_eq!(map_runtime_status(RuntimeAgentStatus::Idle), SessionStatus::Idle);
    assert_eq!(map_runtime_status(RuntimeAgentStatus::Completed), SessionStatus::Completed);
    assert_eq!(
        map_runtime_status(RuntimeAgentStatus::Failed("boom".to_string())),
        SessionStatus::Failed
    );
    assert_eq!(map_runtime_status(RuntimeAgentStatus::Stopped), SessionStatus::Stopped);
}

#[test]
fn spawn_records_a_starting_session_and_touches_the_heartbeat() {
    let orchestrator = Orchestrator::new("/repo", Scripted { spawn_fails: false });
    assert_eq!(orchestrator.repo_path(), "/repo");
    assert_eq!(orchestrator.state().db_path(), "/repo/.rembrandt/state.db");
    let req = request("a1", IsolationMode::Worktree);
    let plan = orchestrator.prepare(&req, &fresh());
    assert_eq!(plan.steps.len(), 3);
    let workspace = plan.conclude(&vec![Ok(()), Ok(()), Ok(())]).unwrap();

    match orchestrator.spawn_agent(req, workspace) {
        SpawnStep::Persist { actions, result } => {
            let session = &result.session;
            assert_eq!(session.agent_id, "a1");
            assert_eq!(session.runtime_kind, "scripted");
            assert_eq!(session.runtime_session_id.as_deref(), Some("run-a1"));
            assert_eq!(session.isolation_mode, IsolationMode::Worktree);
            assert_eq!(session.branch_name, "rembrandt/a1");
            assert_eq!(session.checkout_path, "/repo/.rembrandt/agents/a1");
            assert_eq!(session.task_id.as_deref(), Some("task-1"));
            assert_eq!(session.status, SessionStatus::Starting);
            assert_eq!(session.model.as_deref(), Some("large"));
            assert_eq!(session.created_at, session.updated_at);
            assert_eq!(result.workspace.checkout_path, "/repo/.rembrandt/agents/a1");
            assert_eq!(actions.len(), 2);
            match &actions[0] {
                StoreAction::UpsertSession(stored) => {
                    assert_eq!(stored.agent_id, "a1");
                    assert_eq!(stored.status, SessionStatus::Starting);
                    assert_eq!(stored.created_at, session.created_at);
                }
                other => panic!("expected an upsert, got {:?}", other),
            }
            assert_eq!(heartbeat(&actions[1]), ("a1", "spawned"));
        }
        SpawnStep::RollBack { error, .. } => panic!("unexpected roll-back: {:?}", error),
    }
}

#[test]
fn failed_runtime_rolls_the_workspace_back_and_stores_nothing() {
    let orchestrator = Orchestrator::new("/repo", Scripted { spawn_fails: true });
    let req = request("a1", IsolationMode::Worktree);
    let workspace = orchestrator
        .prepare(&req, &fresh())
        .conclude(&vec![Ok(()), Ok(()), Ok(())])
        .unwrap();
    match orchestrator.spawn_agent(req, workspace) {
        SpawnStep::RollBack { workspace, error } => {
            assert!(matches!(error, RembrandtError::Runtime(reason) if reason == "no such binary"));
            assert_eq!(workspace.agent_id, "a1");
            assert_eq!(workspace.checkout_path, "/repo/.rembrandt/agents/a1");
            let provisioned = WorktreeProbe {
                directory: DirectoryState::Worktree,
                registered: true,
                branch: BranchState::Present,
                branch_at_base: true,
            };
            let steps = orchestrator.rollback(&workspace, &provisioned);
            assert_eq!(steps.len(), 3);
            assert!(matches!(&steps[0].action, WorktreeAction::PruneWorktree { name } if name == "a1"));
            assert!(matches!(
                &steps[1].action,
                WorktreeAction::RemoveDirectory { path } if path == "/repo/.rembrandt/agents/a1"
            ));
            assert!(steps[1].required);
            assert!(matches!(
                &steps[2].action,
                WorktreeAction::DeleteBranch { name } if name == "rembrandt/a1"
            ));
        }
        SpawnStep::Persist { .. } => panic!("a failed spawn must not be stored"),
    }
}

#[test]
fn branch_mode_reuses_the_checkout_and_rolls_back_nothing() {
    let orchestrator = Orchestrator::new("/repo", PiRuntime::new());
    let req = request("a1", IsolationMode::Branch);
    let plan = orchestrator.prepare(&req, &fresh());
    assert_eq!(plan.steps.len(), 2);
    assert_eq!(plan.context.checkout_path, "/repo");
    assert_eq!(plan.context.mode, IsolationMode::Branch);
    assert!(orchestrator.rollback(&plan.context, &fresh()).is_empty());
}

#[test]
fn spawn_step_says_what_follows_each_answer_of_the_runtime() {
    let workspace = || IsolationContext {
        agent_id: "a1".to_string(),
        mode: IsolationMode::Branch,
        repo_path: "/repo".to_string(),
        checkout_path: "/repo".to_string(),
        branch_name: "rembrandt/a1".to_string(),
    };
    let now = Timestamp { secs: 1_700_000_000, nanos: 42 };
    let handle = AgentHandle {
        runtime_session_id: RuntimeSessionId("rt-1".to_string()),
        agent_id: "a1".to_string(),
        model: None,
        metadata: Vec::new(),
    };
    match spawn_step(request("a1", IsolationMode::Branch), workspace(), "pi", Ok(handle), now) {
        SpawnStep::Persist { actions, result } => {
            assert_eq!(result.session.runtime_kind, "pi");
            assert_eq!(result.session.runtime_session_id.as_deref(), Some("rt-1"));
            assert_eq!(result.session.model, None);
            assert_eq!(result.session.created_at, now);
            assert_eq!(result.session.updated_at, now);
            assert_eq!(result.session.isolation_mode, IsolationMode::Branch);
            assert_eq!(actions.len(), 2);
        }
        SpawnStep::RollBack { .. } => panic!("unexpected roll-back"),
    }
    let failed = Err(RembrandtError::Runtime("down".to_string()));
    match spawn_step(request("a1", IsolationMode::Branch), workspace(), "pi", failed, now) {
        SpawnStep::RollBack { workspace, error } => {
            assert_eq!(workspace.branch_name, "rembrandt/a1");
            assert!(matches!(error, RembrandtError::Runtime(reason) if reason == "down"));
        }
        SpawnStep::Persist { .. } => panic!("a failed spawn must not be stored"),
    }
}

#[test]
fn refresh_maps_and_stores_the_runtime_status() {
    let orchestrator = Orchestrator::new("/repo", Scripted { spawn_fails: false });
    assert!(orchestrator.refresh_runtime_status("a1", &None).unwrap().is_none());
    let unaddressed = Some(record_of("a1", None));
    assert!(orchestrator.refresh_runtime_status("a1", &unaddressed).unwrap().is_none());

    let known = Some(record_of("a1", Some("run-a1")));
    let (status, actions) = orchestrator.refresh_runtime_status("a1", &known).unwrap().unwrap();
    assert_eq!(status, SessionStatus::Active);
    assert_eq!(actions.len(), 2);
    assert_eq!(status_update(&actions[0]), ("a1", SessionStatus::Active));
    assert_eq!(heartbeat(&actions[1]), ("a1", "status-refreshed"));

    let pi = Orchestrator::new("/repo", PiRuntime::new());
    let (status, _) = pi.refresh_runtime_status("a1", &known).unwrap().unwrap();
    assert_eq!(status, SessionStatus::Starting);

    let failing = refresh_step("a1", Err(RembrandtError::Runtime("gone".to_string())));
    assert!(matches!(failing, Err(RembrandtError::Runtime(reason)) if reason == "gone"));
    let (status, _) = refresh_step("a1", Ok(RuntimeAgentStatus::Failed("x".to_string()))).unwrap();
    assert_eq!(status, SessionStatus::Failed);
}

#[test]
fn kill_stores_stopped_whether_or_not_the_runtime_stops() {
    // This runtime cannot stop anything; the kill goes through all the same.
    let orchestrator = Orchestrator::new("/repo", Scripted { spawn_fails: false });
    let known = Some(record_of("a1", Some("run-a1")));
    let actions = orchestrator.kill_agent("a1", &known);
    assert_eq!(actions.len(), 2);
    assert_eq!(status_update(&actions[0]), ("a1", SessionStatus::Stopped));
    assert_eq!(heartbeat(&actions[1]), ("a1", "stopped"));

    let unaddressed = Some(record_of("a1", None));
    assert_eq!(orchestrator.kill_agent("a1", &unaddressed).len(), 2);
    assert!(orchestrator.kill_agent("a1", &None).is_empty());
    assert_eq!(kill_actions("a9").len(), 2);
}

#[test]
fn steer_without_a_record_is_a_no_op() {
    let orchestrator = Orchestrator::new("/repo", PiRuntime::new());
    assert!(orchestrator.steer_agent("a3", "hi", &None).unwrap().is_empty());
    let unaddressed = Some(record_of("a3", None));
    assert!(orchestrator.steer_agent("a3", "hi", &unaddressed).unwrap().is_empty());
}

#[test]
fn steer_surfaces_the_error_of_the_runtime_unchanged() {
    let orchestrator = Orchestrator::new("/repo", PiRuntime::new());
    let known = Some(record_of("a3", Some("stub-a3")));
    match orchestrator.steer_agent("a3", "hi", &known) {
        Err(RembrandtError::Runtime(reason)) => {
            assert_eq!(reason, "PiRuntime.send_message not implemented")
        }
        other => panic!("unexpected {:?}", other),
    }

    let delivering = Orchestrator::new("/repo", Scripted { spawn_fails: false });
    let actions = delivering.steer_agent("a3", "hi", &known).unwrap();
    assert_eq!(actions.len(), 1);
    assert_eq!(heartbeat(&actions[0]), ("a3", "message-sent"));
    assert!(steer_step("a3", Err(RembrandtError::Runtime("x".to_string()))).is_err());
}

#[test]
fn store_actions_become_the_statements_of_the_store() {
    let orchestrator = Orchestrator::new("/repo", PiRuntime::new());
    let now = Timestamp { secs: 0, nanos: 0 };
    let texts = |action: &StoreAction| -> Vec<Option<String>> {
        orchestrator
            .statement_for(action, &now)
            .unwrap()
            .params
            .into_iter()
            .map(|value| match value {
                rembrandt::state::SqlValue::Null => None,
                rembrandt::state::SqlValue::Text(text) => Some(text),
            })
            .collect()
    };
    let beat = StoreAction::TouchHeartbeat { agent_id: "a1".to_string(), detail: "spawned".to_string() };
    assert_eq!(
        texts(&beat),
        vec![
            Some("a1".to_string()),
            Some("1970-01-01T00:00:00+00:00".to_string()),
            Some("spawned".to_string()),
        ]
    );
    let update =
        StoreAction::UpdateStatus { agent_id: "a1".to_string(), status: SessionStatus::Idle };
    assert_eq!(texts(&update)[0], Some("idle".to_string()));
    let upsert = StoreAction::UpsertSession(record_of("a1", None));
    assert_eq!(texts(&upsert).len(), 11);
    assert_eq!(orchestrator.list_agents().params.len(), 0);
    assert_eq!(texts_of_get(&orchestrator), vec![Some("a1".to_string())]);
}

fn texts_of_get(orchestrator: &Orchestrator<PiRuntime>) -> Vec<Option<String>> {
    orchestrator
        .get_status("a1")
        .params
        .into_iter()
        .map(|value| match value {
            rembrandt::state::SqlValue::Null => None,
            rembrandt::state::SqlValue::Text(text) => Some(text),
        })
        .collect()
}

#[test]
fn pi_runtime_is_a_stub() {
    let pi = PiRuntime::new();
    assert_eq!(pi.name(), "pi");
    let workspace = IsolationContext {
        agent_id: "a1".to_string(),
        mode: IsolationMode::Worktree,
        repo_path: "/repo".to_string(),
        checkout_path: "/repo/.rembrandt/agents/a1".to_string(),
        branch_name: "rembrandt/a1".to_string(),
    };
    let handle = pi.spawn("a1", &workspace, Some("prompt"), Some("small")).unwrap();
    assert_eq!(handle.runtime_session_id.0, "stub-a1");
    assert_eq!(handle.agent_id, "a1");
    assert_eq!(handle.model.as_deref(), Some("small"));
    assert_eq!(handle.metadata, vec![("status".to_string(), "stub".to_string())]);
    assert_eq!(pi.spawn("a1", &workspace, None, None).unwrap().model, None);
    let id = RuntimeSessionId("stub-a1".to_string());
    assert!(matches!(pi.status(&id), Ok(RuntimeAgentStatus::Starting)));
    assert!(matches!(
        pi.stop(&id),
        Err(RembrandtError::Runtime(reason)) if reason == "PiRuntime.stop not implemented"
    ));
    assert!(matches!(
        pi.send_message(&id, "hi"),
        Err(RembrandtError::Runtime(reason)) if reason == "PiRuntime.send_message not implemented"
    ));
}
