use rembrandt::agent::{
    prompt_args, AgentConfig, AgentRegistry, AgentSession, AgentStatus, AgentType,
    ISOLATED_BY_DEFAULT,
};
use rembrandt::config::{AppConfig, DefaultIsolationMode, TerminalBackendKind};
use rembrandt::daemon::ipc::{default_socket_path, DaemonCommand};
use rembrandt::daemon::logger::{log_path_for_session, LOGS_DIR};
use rembrandt::daemon::DaemonClient;
use rembrandt::integration::agent_mail::AgentMailIntegration;
use rembrandt::integration::beads::{
    claim_comment, completion_comment, status_after_exit, BeadsIntegration,
};
use rembrandt::integration::porque::PorqueIntegration;
use rembrandt::integration::Integration;
use rembrandt::timestamp::Timestamp;
use rembrandt::tui::{
    asks_detach, has_standalone_escape, next_index, prev_index, App, DetachDetector, ViewMode,
};
use rembrandt::RembrandtError;

#[test]
fn default_configuration() {
    let config = AppConfig::default();
    assert_eq!(config.default_spawn_isolation, DefaultIsolationMode::Branch);
    assert_eq!(config.default_compete_isolation, DefaultIsolationMode::Worktree);
    assert_eq!(config.csi_poll_interval_secs, 15);
    assert_eq!(config.terminal_backend, TerminalBackendKind::Detached);
}

#[test]
fn errors_read_as_one_line() {
    let all = [
        (RembrandtError::Git("x".to_string()), "Git operation failed: x"),
        (RembrandtError::Database("x".to_string()), "Database error: x"),
        (RembrandtError::Io("x".to_string()), "IO error: x"),
        (RembrandtError::Agent("x".to_string()), "Agent error: x"),
        (RembrandtError::Worktree("x".to_string()), "Worktree error: x"),
        (RembrandtError::Daemon("x".to_string()), "Daemon error: x"),
        (RembrandtError::SessionNotFound("ses-1".to_string()), "Session not found: ses-1"),
        (RembrandtError::Pty("x".to_string()), "PTY error: x"),
        (RembrandtError::Runtime("x".to_string()), "Runtime error: x"),
        (RembrandtError::State("x".to_string()), "State error: x"),
        (RembrandtError::Competition("x".to_string()), "Competition error: x"),
    ];
    for (error, text) in all {
        assert_eq!(error.message(), text);
    }
    assert_eq!(RembrandtError::Pty("broken pipe".to_string()).detail(), "broken pipe");
}

#[test]
fn log_and_socket_paths() {
    assert_eq!(LOGS_DIR, "logs");
    assert_eq!(
        log_path_for_session("/home/u/.rembrandt/logs", "ses-1a"),
        "/home/u/.rembrandt/logs/ses-1a.log"
    );
    assert_eq!(default_socket_path(Some("/run/user/1000"), Some("u")), "/run/user/1000/rembrandt.sock");
    assert_eq!(default_socket_path(None, Some("u")), "/tmp/rembrandt-u.sock");
    assert_eq!(default_socket_path(None, None), "/tmp/rembrandt-unknown.sock");
    assert_eq!(DaemonClient::new("/tmp/r.sock".to_string()).socket_path(), "/tmp/r.sock");
}

#[test]
fn daemon_commands_name_their_session() {
    let kill = DaemonCommand::Kill { session_id: "ses-1".to_string() };
    assert_eq!(kill.session_id().map(String::as_str), Some("ses-1"));
    let resize = DaemonCommand::Resize { session_id: "ses-2".to_string(), rows: 1, cols: 2 };
    assert_eq!(resize.session_id().map(String::as_str), Some("ses-2"));
    assert!(DaemonCommand::List.session_id().is_none());
    assert!(DaemonCommand::Ping.session_id().is_none());
    assert!(DaemonCommand::ListByAgent { agent_id: "a".to_string() }.session_id().is_none());
}

#[test]
fn view_mode_and_selection() {
    assert_eq!(ViewMode::Symphony.toggled(2), ViewMode::Focus(2));
    assert_eq!(ViewMode::Focus(2).toggled(5), ViewMode::Symphony);
    assert_eq!(next_index(0, 3), 1);
    assert_eq!(next_index(2, 3), 0);
    assert_eq!(next_index(7, 0), 7);
    assert_eq!(prev_index(0, 3), 2);
    assert_eq!(prev_index(2, 3), 1);
    assert_eq!(prev_index(7, 0), 7);
}

#[test]
fn detach_keys_and_escapes() {
    assert!(asks_detach(b"abc\x1d"));
    assert!(asks_detach(b"\x1cabc"));
    assert!(!asks_detach(b"abc\x1b"));
    assert!(!asks_detach(b""));
    assert!(has_standalone_escape(b"\x1b"));
    assert!(has_standalone_escape(b"a\x1bb"));
    assert!(has_standalone_escape(b"\x1b[A\x1b"));
    assert!(!has_standalone_escape(b"\x1b[A"));
    assert!(!has_standalone_escape(b"\x1b[A\x1b[B"));
    assert!(!has_standalone_escape(b"plain"));
}

#[test]
fn integrations_report_their_name_and_availability() {
    let mail = AgentMailIntegration::new();
    assert!(!mail.is_available());
    assert_eq!(mail.name(), "agent-mail");
    assert!(!AgentMailIntegration::default().is_available());
    let mail = AgentMailIntegration::with_server("http://localhost:8765");
    assert!(mail.is_available());
    let files = vec!["src/a.rs".to_string(), "src/b.rs".to_string()];
    let reservation = mail.reserve_files("a1", &files).unwrap();
    assert_eq!(reservation.id, "res-a1");
    assert_eq!(reservation.agent_id, "a1");
    assert_eq!(reservation.files, files);
    assert_eq!(reservation.expires_at, None);
    assert!(mail.release_reservation("res-a1").is_ok());
    assert!(mail.send_message("a1", "a2", "hi").is_ok());
    assert!(mail.broadcast("a1", "hi").is_ok());
    assert!(mail.check_messages("a1").unwrap().is_empty());

    assert!(BeadsIntegration::new(true).is_available());
    assert!(!BeadsIntegration::new(false).is_available());
    assert_eq!(BeadsIntegration::new(false).name(), "beads");
    assert!(PorqueIntegration::new(true).is_available());
    assert_eq!(PorqueIntegration::new(true).name(), "porque");
}

#[test]
fn only_failures_block_a_task() {
    assert_eq!(status_after_exit(0), None);
    assert_eq!(status_after_exit(1), Some("blocked"));
    assert_eq!(status_after_exit(-1), Some("blocked"));
    assert_eq!(claim_comment("a1"), "Claimed by agent: a1");
    assert_eq!(completion_comment("a1"), "Completed by agent: a1");
}

fn agent_session(id: &str, status: AgentStatus) -> AgentSession {
    AgentSession {
        id: id.to_string(),
        agent_type: AgentType::Aider,
        status,
        worktree_path: format!("/repo/.rembrandt/agents/{}", id),
        branch: format!("rembrandt/{}", id),
        task_id: None,
        pid: None,
        reserved_files: Vec::new(),
        started_at: Timestamp { secs: 0, nanos: 0 },
        competition_id: None,
    }
}

#[test]
fn registry_tracks_sessions_by_id() {
    let mut registry = AgentRegistry::new();
    assert!(registry.get_config(&AgentType::Aider).is_none());
    registry.register_config(AgentConfig {
        agent_type: AgentType::Aider,
        command: "aider".to_string(),
        args: Vec::new(),
        supports_acp: false,
    });
    registry.register_config(AgentConfig {
        agent_type: AgentType::Custom("mine".to_string()),
        command: "mine".to_string(),
        args: vec!["--fast".to_string()],
        supports_acp: true,
    });
    registry.register_config(AgentConfig {
        agent_type: AgentType::Aider,
        command: "aider2".to_string(),
        args: Vec::new(),
        supports_acp: false,
    });
    assert_eq!(registry.get_config(&AgentType::Aider).unwrap().command, "aider2");
    let custom = AgentType::Custom("mine".to_string());
    assert_eq!(registry.get_config(&custom).unwrap().args, vec!["--fast"]);
    assert!(registry.get_config(&AgentType::Custom("other".to_string())).is_none());
    assert!(registry.get_config(&AgentType::Codex).is_none());

    registry.register_session(agent_session("a1", AgentStatus::Active));
    registry.register_session(agent_session("a2", AgentStatus::Completed));
    registry.register_session(agent_session("a3", AgentStatus::Idle));
    registry.register_session(agent_session("a2", AgentStatus::Failed("x".to_string())));
    let live: Vec<&str> = registry.active_sessions().iter().map(|s| s.id.as_str()).collect();
    assert_eq!(live, vec!["a1", "a3"]);
    assert_eq!(registry.get_session("a2").unwrap().status, AgentStatus::Failed("x".to_string()));
    assert!(registry.get_session("a9").is_none());

    assert!(registry.update_status("a1", AgentStatus::Stopped).is_ok());
    assert_eq!(registry.get_session("a1").unwrap().status, AgentStatus::Stopped);
    assert!(matches!(
        registry.update_status("a9", AgentStatus::Stopped),
        Err(RembrandtError::Agent(message)) if message == "Session not found: a9"
    ));
    assert_eq!(registry.remove_session("a3").unwrap().id, "a3");
    assert!(registry.remove_session("a3").is_none());
    assert!(registry.active_sessions().is_empty());
    assert!(AgentStatus::Idle.is_live() && !AgentStatus::Idle.is_finished());
    assert!(AgentStatus::Stopped.is_finished() && !AgentStatus::Stopped.is_live());
    assert!(AgentType::Custom("a".to_string()).same(&AgentType::Custom("a".to_string())));
    assert!(!AgentType::Custom("a".to_string()).same(&AgentType::Codex));
}

#[test]
fn prompt_is_passed_by_the_flag_of_the_command() {
    assert!(prompt_args("agent", None).is_empty());
    assert_eq!(prompt_args("agent", Some("do it")), vec!["-p", "do it"]);
    assert_eq!(prompt_args("/usr/bin/opencode", Some("do it")), vec!["--prompt", "do it"]);
    assert_eq!(prompt_args("opencode-nightly", Some("")), vec!["--prompt", ""]);
    assert_eq!(prompt_args("OpenCode", Some("x")), vec!["-p", "x"]);
    assert!(ISOLATED_BY_DEFAULT);
}

#[test]
fn double_escape_detaches_within_300_ms() {
    let mut detector = DetachDetector::new();
    assert!(!detector.observe(b"typing", 0));
    assert_eq!(detector.last_escape_ms, None);
    assert!(!detector.observe(b"\x1b", 1000));
    assert_eq!(detector.last_escape_ms, Some(1000));
    // Too late: this escape starts over.
    assert!(!detector.observe(b"\x1b", 1300));
    assert_eq!(detector.last_escape_ms, Some(1300));
    // Arrow keys are no escapes.
    assert!(!detector.observe(b"\x1b[A", 1350));
    assert_eq!(detector.last_escape_ms, Some(1300));
    assert!(detector.observe(b"\x1b", 1599));

    let mut detector = DetachDetector::new();
    assert!(detector.observe(b"abc\x1d", 5));
    assert!(detector.observe(b"\x1c", 6));
    assert_eq!(detector.last_escape_ms, None);
}

#[test]
fn dashboard_moves_among_the_live_agents() {
    let mut app = App::new();
    assert_eq!(app.view_mode, ViewMode::Symphony);
    assert!(!app.should_quit);
    assert!(app.selected_session().is_none());
    app.next_agent();
    app.prev_agent();
    assert_eq!(app.selected_agent, 0);

    app.registry.register_session(agent_session("a1", AgentStatus::Active));
    app.registry.register_session(agent_session("a2", AgentStatus::Stopped));
    app.registry.register_session(agent_session("a3", AgentStatus::Idle));
    assert_eq!(app.selected_session().unwrap().id, "a1");
    app.next_agent();
    assert_eq!(app.selected_session().unwrap().id, "a3");
    app.next_agent();
    assert_eq!(app.selected_session().unwrap().id, "a1");
    app.prev_agent();
    assert_eq!(app.selected_session().unwrap().id, "a3");
    app.prev_agent();
    assert_eq!(app.selected_agent, 0);

    app.toggle_view();
    assert_eq!(app.view_mode, ViewMode::Focus(0));
    app.toggle_view();
    assert_eq!(app.view_mode, ViewMode::Symphony);
    app.zoom_in(1);
    assert_eq!(app.view_mode, ViewMode::Focus(1));
    app.zoom_out();
    assert_eq!(app.view_mode, ViewMode::Symphony);
    app.selected_agent = 5;
    assert!(app.selected_session().is_none());
}
