use rembrandt::daemon::session::{
    drained_len, exit_code, generate_session_id, generate_session_id_after, session_id_for,
    PtySession, ReadOutcome, SessionStatus, TerminalSize, WaitOutcome, DEFAULT_COLS,
    DEFAULT_ROWS, MAX_CLOCK_MILLIS, READ_CHUNK_SIZE,
};
use rembrandt::RembrandtError;

fn running(capacity: usize) -> PtySession {
    PtySession::spawn(
        "ses-1".to_string(),
        "a1".to_string(),
        "/bin/sh",
        "/work",
        capacity,
        Some("rembrandt/a1".to_string()),
        true,
        Some("task-7".to_string()),
        None,
        Ok(()),
    )
    .unwrap()
}

#[test]
fn session_id_is_prefix_and_lowercase_hex() {
    assert_eq!(session_id_for(0), "ses-0");
    assert_eq!(session_id_for(15), "ses-f");
    assert_eq!(session_id_for(16), "ses-10");
    assert_eq!(session_id_for(255), "ses-ff");
    assert_eq!(session_id_for(0x18f3a2b4c5d), "ses-18f3a2b4c5d");
    assert_eq!(session_id_for(u128::MAX), format!("ses-{:x}", u128::MAX));
}

#[test]
fn generated_session_id_has_the_shape_of_an_id() {
    let id = generate_session_id();
    assert!(id.starts_with("ses-"));
    let digits = &id[4..];
    assert!(!digits.is_empty());
    assert!(digits.chars().all(|c| c.is_ascii_digit() || ('a'..='f').contains(&c)));
    // The clock of this machine is past 2001.
    assert!(u128::from_str_radix(digits, 16).unwrap() > 1_000_000_000_000);
}

#[test]
fn spawn_starts_running_with_an_empty_history() {
    let session = running(64);
    assert_eq!(session.id, "ses-1");
    assert_eq!(session.agent_id, "a1");
    assert_eq!(session.command, "/bin/sh");
    assert_eq!(session.workdir, "/work");
    assert_eq!(session.branch.as_deref(), Some("rembrandt/a1"));
    assert!(session.isolated);
    assert_eq!(session.task_id.as_deref(), Some("task-7"));
    assert_eq!(session.task_title, None);
    assert_eq!(session.status, SessionStatus::Running);
    assert!(session.is_running());
    assert!(session.reader_attached);
    assert_eq!(session.output_len(), 0);
    assert_eq!(session.output_buffer().capacity(), 64);
    assert_eq!(session.read_output_raw(), b"");
}

#[test]
fn spawn_fails_with_the_reason_of_the_terminal() {
    let failed = PtySession::spawn(
        "ses-2".to_string(),
        "a1".to_string(),
        "/bin/none",
        "/work",
        64,
        None,
        false,
        None,
        None,
        Err("No such file or directory".to_string()),
    );
    match failed {
        Err(RembrandtError::Pty(reason)) => assert_eq!(reason, "No such file or directory"),
        other => panic!("expected a terminal error, got {:?}", other.map(|s| s.id)),
    }
}

#[test]
fn terminal_size_defaults_to_24_by_80() {
    assert_eq!(DEFAULT_ROWS, 24);
    assert_eq!(DEFAULT_COLS, 80);
    assert_eq!(READ_CHUNK_SIZE, 4096);
    let size = TerminalSize::for_spawn(None, None);
    assert_eq!((size.rows, size.cols, size.pixel_width, size.pixel_height), (24, 80, 0, 0));
    let size = TerminalSize::for_spawn(Some(50), None);
    assert_eq!((size.rows, size.cols), (50, 80));
    let size = TerminalSize::for_spawn(None, Some(132));
    assert_eq!((size.rows, size.cols), (24, 132));
    let size = TerminalSize::for_resize(40, 120);
    assert_eq!((size.rows, size.cols, size.pixel_width, size.pixel_height), (40, 120, 0, 0));
}

#[test]
fn read_available_transfers_until_the_first_read_without_bytes() {
    let mut session = running(64);
    let reads = vec![
        ReadOutcome::Data(b"hello ".to_vec()),
        ReadOutcome::Data(b"world".to_vec()),
        ReadOutcome::WouldBlock,
        ReadOutcome::Data(b"never seen".to_vec()),
    ];
    assert_eq!(session.read_available(&reads), 11);
    assert_eq!(session.read_output_raw(), b"hello world");
    assert_eq!(session.output_len(), 11);
}

#[test]
fn read_available_stops_at_end_of_stream_and_at_failure() {
    let mut session = running(64);
    let eof = vec![
        ReadOutcome::Data(b"ab".to_vec()),
        ReadOutcome::Data(Vec::new()),
        ReadOutcome::Data(b"cd".to_vec()),
    ];
    assert_eq!(session.read_available(&eof), 2);
    let failed = vec![ReadOutcome::Failed, ReadOutcome::Data(b"ef".to_vec())];
    assert_eq!(session.read_available(&failed), 0);
    assert_eq!(session.read_available(&Vec::new()), 0);
    assert_eq!(session.read_output_raw(), b"ab");
}

#[test]
fn read_available_keeps_the_last_bytes_when_the_history_overflows() {
    let mut session = running(10);
    let reads = vec![
        ReadOutcome::Data(b"12345678".to_vec()),
        ReadOutcome::Data(b"abcd".to_vec()),
        ReadOutcome::WouldBlock,
    ];
    assert_eq!(session.read_available(&reads), 12);
    assert_eq!(session.read_output_raw(), b"345678abcd");
    assert_eq!(session.output_len(), 10);
    assert_eq!(session.output_buffer().total_written(), 12);
}

#[test]
fn read_available_is_a_no_op_while_the_reader_is_on_loan() {
    let mut session = running(64);
    assert!(session.take_reader());
    assert!(!session.reader_attached);
    assert!(!session.take_reader());
    let reads = vec![ReadOutcome::Data(b"missed".to_vec())];
    assert_eq!(session.read_available(&reads), 0);
    assert_eq!(session.read_output_raw(), b"");
    session.return_reader();
    assert!(session.reader_attached);
    assert_eq!(session.read_available(&reads), 6);
    assert_eq!(session.read_output_raw(), b"missed");
}

#[test]
fn read_output_strips_escape_sequences_and_replaces_invalid_bytes() {
    let mut session = running(256);
    let reads = vec![ReadOutcome::Data(b"\x1b[1;31mred\x1b[0m plain \xff!".to_vec())];
    session.read_available(&reads);
    assert_eq!(session.read_output(), "red plain \u{fffd}!");
    assert_eq!(session.read_output_raw(), b"\x1b[1;31mred\x1b[0m plain \xff!");
}

#[test]
fn poll_follows_the_child() {
    let mut session = running(8);
    assert_eq!(session.poll(WaitOutcome::StillRunning), SessionStatus::Running);
    assert!(session.is_running());
    assert_eq!(session.poll(WaitOutcome::Exited(3)), SessionStatus::Exited(3));
    assert!(!session.is_running());
    assert_eq!(session.status, SessionStatus::Exited(3));

    let mut session = running(8);
    assert_eq!(
        session.poll(WaitOutcome::Failed("wait failed".to_string())),
        SessionStatus::Failed("wait failed".to_string())
    );
    assert!(!session.is_running());
}

#[test]
fn terminal_status_is_sticky() {
    let mut session = running(8);
    session.poll(WaitOutcome::Exited(0));
    assert_eq!(session.poll(WaitOutcome::StillRunning), SessionStatus::Exited(0));
    assert_eq!(session.poll(WaitOutcome::Exited(9)), SessionStatus::Exited(0));
    assert_eq!(session.poll(WaitOutcome::Failed("late".to_string())), SessionStatus::Exited(0));

    let mut session = running(8);
    session.poll(WaitOutcome::Failed("gone".to_string()));
    assert_eq!(
        session.poll(WaitOutcome::StillRunning),
        SessionStatus::Failed("gone".to_string())
    );
    assert_eq!(session.poll(WaitOutcome::Exited(0)), SessionStatus::Failed("gone".to_string()));
}

#[test]
fn kill_forces_exited_minus_one_whatever_polls_say_later() {
    let mut session = running(8);
    assert!(session.kill(Ok(())).is_ok());
    assert_eq!(session.status, SessionStatus::Exited(-1));
    assert!(!session.is_running());
    assert_eq!(session.poll(WaitOutcome::Exited(0)), SessionStatus::Exited(-1));
    assert_eq!(session.poll(WaitOutcome::StillRunning), SessionStatus::Exited(-1));
    assert_eq!(session.poll(WaitOutcome::Failed("x".to_string())), SessionStatus::Exited(-1));
    assert!(!session.is_running());
}

#[test]
fn kill_is_final_even_if_the_signal_could_not_be_sent() {
    let mut session = running(8);
    match session.kill(Err("no such process".to_string())) {
        Err(RembrandtError::Pty(reason)) => assert_eq!(reason, "no such process"),
        other => panic!("expected a terminal error, got {:?}", other),
    }
    assert_eq!(session.status, SessionStatus::Exited(-1));
    assert!(!session.is_running());
    assert_eq!(session.poll(WaitOutcome::StillRunning), SessionStatus::Exited(-1));

    let mut ended = running(8);
    ended.poll(WaitOutcome::Exited(0));
    assert!(ended.kill(Err("already gone".to_string())).is_err());
    assert_eq!(ended.status, SessionStatus::Exited(-1));
}

#[test]
fn write_nudge_and_resize_surface_terminal_failures() {
    let session = running(8);
    assert!(session.write(Ok(())).is_ok());
    assert!(session.nudge(Ok(())).is_ok());
    assert!(session.resize(Ok(())).is_ok());
    assert!(matches!(
        session.write(Err("broken pipe".to_string())),
        Err(RembrandtError::Pty(reason)) if reason == "broken pipe"
    ));
    assert!(matches!(
        session.nudge(Err("broken pipe".to_string())),
        Err(RembrandtError::Pty(reason)) if reason == "broken pipe"
    ));
    assert!(matches!(
        session.resize(Err("bad size".to_string())),
        Err(RembrandtError::Pty(reason)) if reason == "bad size"
    ));
    assert_eq!(PtySession::nudge_input(), b"\n");
}

#[test]
fn exit_codes_wrap_like_a_cast() {
    assert_eq!(exit_code(0), 0);
    assert_eq!(exit_code(1), 1);
    assert_eq!(exit_code(i32::MAX as u32), i32::MAX);
    assert_eq!(exit_code(i32::MAX as u32 + 1), i32::MIN);
    assert_eq!(exit_code(u32::MAX), -1);
    assert_eq!(exit_code(0xffff_ff00), 0xffff_ff00u32 as i32);
}

#[test]
fn status_predicates() {
    assert!(SessionStatus::Running.is_running());
    assert!(!SessionStatus::Running.is_clean_exit());
    assert!(!SessionStatus::Running.is_failure());
    assert!(SessionStatus::Exited(0).is_clean_exit());
    assert!(!SessionStatus::Exited(0).is_failure());
    assert!(SessionStatus::Exited(2).is_failure());
    assert!(SessionStatus::Exited(-1).is_failure());
    assert!(SessionStatus::Failed("x".to_string()).is_failure());
    assert_eq!(SessionStatus::Exited(7).reported_code(), 7);
    assert_eq!(SessionStatus::Failed("x".to_string()).reported_code(), -1);
    assert_ne!(SessionStatus::Failed("x".to_string()), SessionStatus::Failed("y".to_string()));
    assert_ne!(SessionStatus::Exited(0), SessionStatus::Running);
}

#[test]
fn ids_after_a_floor_never_repeat() {
    let (first, stamp) = generate_session_id_after(0);
    assert_eq!(first, session_id_for(stamp));
    assert!(stamp > 1_000_000_000_000 && stamp <= MAX_CLOCK_MILLIS);
    let mut floor = stamp + 1;
    let mut seen = vec![first];
    for _ in 0..500 {
        let (id, stamp) = generate_session_id_after(floor);
        assert!(stamp >= floor);
        assert_eq!(id, session_id_for(stamp));
        assert!(!seen.contains(&id));
        seen.push(id);
        floor = stamp + 1;
    }
    // A floor ahead of the clock is the stamp.
    let ahead = MAX_CLOCK_MILLIS + 17;
    assert_eq!(generate_session_id_after(ahead), (session_id_for(ahead), ahead));
    assert_eq!(MAX_CLOCK_MILLIS, i64::MAX as u128 * 1000 + 4294);
    assert!(session_id_for(7).len() > 4);
}

#[test]
fn a_drain_ends_at_the_first_read_without_bytes() {
    assert!(ReadOutcome::Data(vec![1]).carries_bytes());
    assert!(!ReadOutcome::Data(Vec::new()).carries_bytes());
    assert!(!ReadOutcome::WouldBlock.carries_bytes());
    assert!(!ReadOutcome::Failed.carries_bytes());
    assert_eq!(drained_len(&Vec::new()), Some(0));
    let reads = vec![
        ReadOutcome::Data(vec![1, 2, 3]),
        ReadOutcome::Data(vec![4]),
        ReadOutcome::WouldBlock,
        ReadOutcome::Data(vec![5, 6]),
    ];
    assert_eq!(drained_len(&reads), Some(4));
    assert_eq!(drained_len(&vec![ReadOutcome::Failed, ReadOutcome::Data(vec![1])]), Some(0));
    let mut session = running(2);
    assert!(session.has_room_for(&reads));
    assert_eq!(session.read_available(&reads), 4);
    assert!(session.has_room_for(&Vec::new()));
}
