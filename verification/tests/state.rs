use rembrandt::isolation::IsolationMode;
use rembrandt::state::{
    isolation_mode_from_str, isolation_mode_to_str, parse_rfc3339, read_back, SessionRecord,
    SessionStatus, SqlValue, Statement, StateStore, SESSION_COLUMNS,
};
use rembrandt::timestamp::Timestamp;
use rembrandt::RembrandtError;
use rusqlite::types::Value;
use rusqlite::{params_from_iter, Connection, OptionalExtension, Row};

fn record(agent_id: &str, updated_secs: i64) -> SessionRecord {
    SessionRecord {
        agent_id: agent_id.to_string(),
        runtime_kind: "pi".to_string(),
        runtime_session_id: Some(format!("stub-{}", agent_id)),
        isolation_mode: IsolationMode::Worktree,
        branch_name: format!("rembrandt/{}", agent_id),
        checkout_path: format!("/repo/.rembrandt/agents/{}", agent_id),
        task_id: None,
        status: SessionStatus::Starting,
        model: Some("large".to_string()),
        created_at: Timestamp { secs: 1_700_000_000, nanos: 123_000_000 },
        updated_at: Timestamp { secs: updated_secs, nanos: 5 },
    }
}

fn texts(statement: &Statement) -> Vec<Option<String>> {
    statement
        .params
        .iter()
        .map(|value| match value {
            SqlValue::Null => None,
            SqlValue::Text(text) => Some(text.clone()),
        })
        .collect()
}

fn bound(statement: &Statement) -> Vec<Value> {
    texts(statement).into_iter().map(|t| t.map_or(Value::Null, Value::Text)).collect()
}

fn cells(row: &Row<'_>) -> rusqlite::Result<Vec<SqlValue>> {
    let mut cells = Vec::new();
    for index in 0..SESSION_COLUMNS {
        cells.push(match row.get::<_, Option<String>>(index)? {
            Some(text) => SqlValue::Text(text),
            None => SqlValue::Null,
        });
    }
    Ok(cells)
}

fn open() -> (StateStore, Connection) {
    let store = StateStore::open("/repo");
    let conn = Connection::open_in_memory().unwrap();
    let schema = store.init_schema(&Timestamp { secs: 1_700_000_000, nanos: 0 }).unwrap();
    assert_eq!(schema.len(), 2);
    conn.execute_batch(schema[0].sql).unwrap();
    conn.execute(schema[1].sql, params_from_iter(bound(&schema[1]))).unwrap();
    // Opening twice does no harm.
    conn.execute_batch(schema[0].sql).unwrap();
    conn.execute(schema[1].sql, params_from_iter(bound(&schema[1]))).unwrap();
    (store, conn)
}

fn run(conn: &Connection, statement: &Statement) {
    conn.execute(statement.sql, params_from_iter(bound(statement))).unwrap();
}

fn get(store: &StateStore, conn: &Connection, agent_id: &str) -> Option<SessionRecord> {
    let statement = store.get_session(agent_id);
    let row = conn
        .prepare(statement.sql)
        .unwrap()
        .query_row(params_from_iter(bound(&statement)), |row| cells(row))
        .optional()
        .unwrap();
    store.read_session(&row).unwrap()
}

fn list(store: &StateStore, conn: &Connection) -> Vec<SessionRecord> {
    let statement = store.list_sessions();
    let mut prepared = conn.prepare(statement.sql).unwrap();
    let rows: Vec<Vec<SqlValue>> = prepared
        .query_map(params_from_iter(bound(&statement)), |row| cells(row))
        .unwrap()
        .map(|row| row.unwrap())
        .collect();
    store.read_sessions(&rows).unwrap()
}

fn assert_same(a: &SessionRecord, b: &SessionRecord) {
    assert_eq!(a.agent_id, b.agent_id);
    assert_eq!(a.runtime_kind, b.runtime_kind);
    assert_eq!(a.runtime_session_id, b.runtime_session_id);
    assert_eq!(a.isolation_mode, b.isolation_mode);
    assert_eq!(a.branch_name, b.branch_name);
    assert_eq!(a.checkout_path, b.checkout_path);
    assert_eq!(a.task_id, b.task_id);
    assert_eq!(a.status, b.status);
    assert_eq!(a.model, b.model);
    assert_eq!(a.created_at, b.created_at);
    assert_eq!(a.updated_at, b.updated_at);
}

#[test]
fn status_tags_round_trip() {
    let all = [
        (SessionStatus::Starting, "starting"),
        (SessionStatus::Active, "active"),
        (SessionStatus::Idle, "idle"),
        (SessionStatus::Completed, "completed"),
        (SessionStatus::Failed, "failed"),
        (SessionStatus::Stopped, "stopped"),
    ];
    for (status, tag) in all {
        assert_eq!(status.as_str(), tag);
        assert_eq!(SessionStatus::from_str(tag).unwrap(), status);
        assert_eq!(SessionStatus::from_str(status.as_str()).unwrap(), status);
    }
    match SessionStatus::from_str("running") {
        Err(RembrandtError::State(message)) => {
            assert_eq!(message, "unknown session status 'running'")
        }
        other => panic!("unexpected {:?}", other),
    }
    assert!(SessionStatus::from_str("").is_err());
    assert!(SessionStatus::from_str("Active").is_err());
}

#[test]
fn isolation_mode_tags_round_trip() {
    assert_eq!(isolation_mode_to_str(IsolationMode::Branch), "branch");
    assert_eq!(isolation_mode_to_str(IsolationMode::Worktree), "worktree");
    assert_eq!(isolation_mode_from_str("branch").unwrap(), IsolationMode::Branch);
    assert_eq!(isolation_mode_from_str("worktree").unwrap(), IsolationMode::Worktree);
    match isolation_mode_from_str("copy") {
        Err(RembrandtError::State(message)) => assert_eq!(message, "unknown isolation mode 'copy'"),
        other => panic!("unexpected {:?}", other),
    }
}

#[test]
fn timestamps_are_stored_as_rfc3339_in_utc() {
    let at = Timestamp { secs: 1_700_000_000, nanos: 0 };
    assert_eq!(at.to_rfc3339().unwrap(), "2023-11-14T22:13:20+00:00");
    let at = Timestamp { secs: 1_700_000_000, nanos: 123_000_000 };
    assert_eq!(at.to_rfc3339().unwrap(), "2023-11-14T22:13:20.123+00:00");
    assert_eq!(Timestamp { secs: 0, nanos: 0 }.to_rfc3339().unwrap(), "1970-01-01T00:00:00+00:00");
    assert!(Timestamp { secs: i64::MAX, nanos: 0 }.to_rfc3339().is_none());

    assert_eq!(parse_rfc3339("2023-11-14T22:13:20.123+00:00").unwrap(), at);
    // Other offsets denote the same instant in UTC.
    assert_eq!(parse_rfc3339("2023-11-14T23:13:20.123+01:00").unwrap(), at);
    assert_eq!(parse_rfc3339("2023-11-14T22:13:20.123Z").unwrap(), at);
    match parse_rfc3339("yesterday") {
        Err(RembrandtError::State(message)) => {
            assert!(message.starts_with("invalid timestamp 'yesterday': "), "{}", message)
        }
        other => panic!("unexpected {:?}", other),
    }
}

#[test]
fn timestamps_order_chronologically() {
    let early = Timestamp { secs: 10, nanos: 999_999_999 };
    let late = Timestamp { secs: 11, nanos: 0 };
    assert!(early.not_after(&late));
    assert!(!late.not_after(&early));
    assert!(early.not_after(&early));
    assert!(Timestamp { secs: 10, nanos: 1 }.not_after(&Timestamp { secs: 10, nanos: 2 }));
    assert_eq!(Timestamp { secs: 1, nanos: 2_000_000 }.unix_millis(), 1002);
    assert_eq!(Timestamp { secs: 1, nanos: 1_999_999 }.unix_millis(), 1001);
    assert_eq!(Timestamp { secs: -5, nanos: 0 }.unix_millis(), 0);
    assert!(Timestamp::now().unix_millis() > 1_000_000_000_000);
}

#[test]
fn upsert_binds_the_columns_in_order() {
    let store = StateStore::open("/repo");
    assert_eq!(store.db_path(), "/repo/.rembrandt/state.db");
    let statement = store.upsert_session(&record("a1", 1_700_000_100)).unwrap();
    assert!(statement.sql.contains("ON CONFLICT(agent_id) DO UPDATE SET"));
    assert!(!statement.sql.contains("created_at = excluded.created_at"));
    assert_eq!(
        texts(&statement),
        vec![
            Some("a1".to_string()),
            Some("pi".to_string()),
            Some("stub-a1".to_string()),
            Some("worktree".to_string()),
            Some("rembrandt/a1".to_string()),
            Some("/repo/.rembrandt/agents/a1".to_string()),
            None,
            Some("starting".to_string()),
            Some("large".to_string()),
            Some("2023-11-14T22:13:20.123+00:00".to_string()),
            Some("2023-11-14T22:15:00.000000005+00:00".to_string()),
        ]
    );
    let unstorable = SessionRecord { created_at: Timestamp { secs: i64::MIN, nanos: 0 }, ..record("a1", 0) };
    assert!(matches!(store.upsert_session(&unstorable), Err(RembrandtError::State(_))));

    let touched = store
        .touch_heartbeat("a1", Some("spawned"), &Timestamp { secs: 0, nanos: 0 })
        .unwrap();
    assert_eq!(
        texts(&touched),
        vec![
            Some("a1".to_string()),
            Some("1970-01-01T00:00:00+00:00".to_string()),
            Some("spawned".to_string()),
        ]
    );
    let touched = store.touch_heartbeat("a1", None, &Timestamp { secs: 0, nanos: 0 }).unwrap();
    assert_eq!(texts(&touched)[2], None);
    let updated = store
        .update_status("a1", SessionStatus::Stopped, &Timestamp { secs: 0, nanos: 0 })
        .unwrap();
    assert_eq!(
        texts(&updated),
        vec![
            Some("stopped".to_string()),
            Some("1970-01-01T00:00:00+00:00".to_string()),
            Some("a1".to_string()),
        ]
    );
}

#[test]
fn stored_record_reads_back_equal() {
    let (store, conn) = open();
    assert!(get(&store, &conn, "a1").is_none());
    let stored = record("a1", 1_700_000_100);
    run(&conn, &store.upsert_session(&stored).unwrap());
    let read = get(&store, &conn, "a1").unwrap();
    assert_same(&read, &stored);
    assert!(stored.updated_at.not_after(&read.updated_at));
    assert!(get(&store, &conn, "a2").is_none());

    let mut plain = record("a2", 1_700_000_200);
    plain.runtime_session_id = None;
    plain.model = None;
    plain.task_id = Some("task-9".to_string());
    plain.isolation_mode = IsolationMode::Branch;
    plain.status = SessionStatus::Idle;
    run(&conn, &store.upsert_session(&plain).unwrap());
    assert_same(&get(&store, &conn, "a2").unwrap(), &plain);
}

#[test]
fn upsert_updates_everything_but_created_at() {
    let (store, conn) = open();
    let first = record("a1", 1_700_000_100);
    run(&conn, &store.upsert_session(&first).unwrap());
    let mut second = record("a1", 1_700_000_900);
    second.created_at = Timestamp { secs: 1_800_000_000, nanos: 0 };
    second.status = SessionStatus::Active;
    second.branch_name = "rembrandt/other".to_string();
    second.model = None;
    run(&conn, &store.upsert_session(&second).unwrap());

    let read = get(&store, &conn, "a1").unwrap();
    assert_eq!(read.created_at, first.created_at);
    assert_eq!(read.updated_at, second.updated_at);
    assert_eq!(read.status, SessionStatus::Active);
    assert_eq!(read.branch_name, "rembrandt/other");
    assert_eq!(read.model, None);
    assert_eq!(list(&store, &conn).len(), 1);
}

#[test]
fn sessions_are_listed_most_recently_updated_first() {
    let (store, conn) = open();
    run(&conn, &store.upsert_session(&record("old", 1_700_000_100)).unwrap());
    run(&conn, &store.upsert_session(&record("new", 1_700_000_300)).unwrap());
    run(&conn, &store.upsert_session(&record("mid", 1_700_000_200)).unwrap());
    let order: Vec<String> = list(&store, &conn).into_iter().map(|r| r.agent_id).collect();
    assert_eq!(order, vec!["new", "mid", "old"]);

    let later = Timestamp { secs: 1_700_000_400, nanos: 0 };
    run(&conn, &store.update_status("old", SessionStatus::Stopped, &later).unwrap());
    let listed = list(&store, &conn);
    let order: Vec<&str> = listed.iter().map(|r| r.agent_id.as_str()).collect();
    assert_eq!(order, vec!["old", "new", "mid"]);
    assert_eq!(listed[0].status, SessionStatus::Stopped);
    assert_eq!(listed[0].updated_at, later);
}

#[test]
fn heartbeat_is_upserted() {
    let (store, conn) = open();
    let first = Timestamp { secs: 1_700_000_000, nanos: 0 };
    let second = Timestamp { secs: 1_700_000_060, nanos: 0 };
    run(&conn, &store.touch_heartbeat("a1", Some("spawned"), &first).unwrap());
    run(&conn, &store.touch_heartbeat("a1", None, &second).unwrap());
    let (count, seen, detail): (i64, String, Option<String>) = conn
        .query_row(
            "SELECT COUNT(*), MAX(last_seen_at), MAX(detail) FROM heartbeats WHERE agent_id = 'a1'",
            [],
            |row| Ok((row.get(0)?, row.get(1)?, row.get(2)?)),
        )
        .unwrap();
    assert_eq!(count, 1);
    assert_eq!(seen, "2023-11-14T22:14:20+00:00");
    assert_eq!(detail, None);
}

#[test]
fn unreadable_rows_are_database_errors() {
    let good = StateStore::open("/repo").upsert_session(&record("a1", 1_700_000_100)).unwrap();
    assert!(StateStore::read_row(&good.params).is_ok());

    let broken = |index: usize, value: SqlValue| {
        let mut cells = StateStore::open("/repo")
            .upsert_session(&record("a1", 1_700_000_100))
            .unwrap()
            .params;
        cells[index] = value;
        StateStore::read_row(&cells)
    };
    assert!(matches!(broken(0, SqlValue::Null), Err(RembrandtError::Database(_))));
    assert!(matches!(
        broken(3, SqlValue::Text("copy".to_string())),
        Err(RembrandtError::Database(detail)) if detail == "unknown isolation mode 'copy'"
    ));
    assert!(matches!(
        broken(7, SqlValue::Text("running".to_string())),
        Err(RembrandtError::Database(detail)) if detail == "unknown session status 'running'"
    ));
    assert!(matches!(
        broken(9, SqlValue::Text("soon".to_string())),
        Err(RembrandtError::Database(detail)) if detail.starts_with("invalid timestamp 'soon': ")
    ));
    assert!(matches!(broken(10, SqlValue::Null), Err(RembrandtError::Database(_))));
    assert!(broken(2, SqlValue::Null).is_ok());
    assert!(matches!(StateStore::read_row(&Vec::new()), Err(RembrandtError::Database(_))));

    let store = StateStore::open("/repo");
    assert!(store.read_session(&None).unwrap().is_none());
    assert!(store.read_sessions(&Vec::new()).unwrap().is_empty());
    let rows = vec![good.params, vec![SqlValue::Null]];
    assert!(matches!(store.read_sessions(&rows), Err(RembrandtError::Database(_))));
}

#[test]
fn clock_readings_become_instants() {
    assert_eq!(Timestamp::from_elapsed(Some((1_700_000_000, 5))), Timestamp { secs: 1_700_000_000, nanos: 5 });
    assert_eq!(Timestamp::from_elapsed(Some((0, 999_999_999))), Timestamp { secs: 0, nanos: 999_999_999 });
    assert_eq!(
        Timestamp::from_elapsed(Some((i64::MAX as u64, 1))),
        Timestamp { secs: i64::MAX, nanos: 1 }
    );
    // Further than `i64` seconds reach: the last second.
    assert_eq!(
        Timestamp::from_elapsed(Some((i64::MAX as u64 + 1, 2))),
        Timestamp { secs: i64::MAX, nanos: 2 }
    );
    assert_eq!(Timestamp::from_elapsed(Some((u64::MAX, 0))), Timestamp { secs: i64::MAX, nanos: 0 });
    // A clock before the epoch reads as the epoch.
    assert_eq!(Timestamp::from_elapsed(None), Timestamp { secs: 0, nanos: 0 });
    let now = Timestamp::now();
    assert!(now.secs > 1_000_000_000 && now.nanos < 1_000_000_000);
}

#[test]
fn storable_records_read_back_from_their_row() {
    let store = StateStore::open("/repo");
    let stored = record("a1", 1_700_000_100);
    assert!(stored.is_storable());
    assert!(stored.created_at.survives_storage());
    assert_same(&read_back(&store, &stored).unwrap(), &stored);

    let mut plain = record("a2", 0);
    plain.runtime_session_id = None;
    plain.model = None;
    plain.task_id = Some("t".to_string());
    plain.isolation_mode = IsolationMode::Branch;
    plain.status = SessionStatus::Completed;
    plain.created_at = Timestamp { secs: 0, nanos: 0 };
    plain.updated_at = Timestamp { secs: 253_402_300_799, nanos: 999_999_999 };
    assert_same(&read_back(&store, &plain).unwrap(), &plain);

    // Instants without a text, and instants whose text does not read back.
    assert!(!Timestamp { secs: i64::MAX, nanos: 0 }.survives_storage());
    assert!(!Timestamp { secs: 0, nanos: 2_000_000_000 }.survives_storage());
    assert!(!Timestamp { secs: 253_402_300_800, nanos: 0 }.survives_storage());
    let mut late = record("a3", 1);
    late.updated_at = Timestamp { secs: 253_402_300_800, nanos: 0 };
    assert!(!late.is_storable());
    assert!(read_back(&store, &late).is_none());
}
