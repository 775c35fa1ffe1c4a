use noir::config::{ConnectionConfig, Credentials, Dialect, Mode};
use noir::connection::InitiatedConnection;
use noir::error::Error;
use noir::queue::{enqueue_query, QueryTaskStatus};
use noir::registry::{token_is_cancelled, AppState};
use noir::sql::{apply_auto_limit, get_query_type, sql_to_statements, QueryType};

#[test]
fn classification_by_leading_keyword() {
    assert!(matches!(get_query_type("SELECT * FROM t"), QueryType::Select));
    assert!(matches!(get_query_type("select 1"), QueryType::Select));
    assert!(matches!(get_query_type("WITH x AS (SELECT 1) SELECT * FROM x"), QueryType::Select));
    assert!(matches!(get_query_type("INSERT INTO t VALUES (1)"), QueryType::Insert));
    assert!(matches!(get_query_type("UPDATE t SET x = 1"), QueryType::Update));
    assert!(matches!(get_query_type("DELETE FROM t"), QueryType::Delete));
    assert!(matches!(get_query_type("CREATE TABLE t (x INT)"), QueryType::Create));
    assert!(matches!(get_query_type("ALTER TABLE t ADD c INT"), QueryType::Alter));
    assert!(matches!(get_query_type("DROP TABLE t"), QueryType::Drop));
    assert!(matches!(get_query_type("TRUNCATE TABLE t"), QueryType::Truncate));
    assert!(matches!(get_query_type("SHOW TABLES"), QueryType::Show));
    assert!(matches!(get_query_type("EXPLAIN SELECT 1"), QueryType::Show));
    assert!(matches!(get_query_type("GRANT ALL ON t TO u"), QueryType::Other));
    assert!(matches!(get_query_type("SELECTED"), QueryType::Other));
}

#[test]
fn query_type_names() {
    assert_eq!(QueryType::Select.as_str(), "Select");
    assert_eq!(QueryType::Truncate.as_str(), "Truncate");
}

#[test]
fn sql_to_statements_splits_and_classifies() {
    let types = sql_to_statements(Dialect::Postgresql, "SELECT 1; INSERT INTO t VALUES (2);")
        .unwrap();
    assert_eq!(types.len(), 2);
    assert!(matches!(types[0], QueryType::Select));
    assert!(matches!(types[1], QueryType::Insert));
}

#[test]
fn sql_to_statements_rejects_empty_input() {
    assert!(matches!(sql_to_statements(Dialect::Mysql, ""), Err(Error::NoStatements)));
    assert!(matches!(sql_to_statements(Dialect::Mysql, "   "), Err(Error::NoStatements)));
    assert!(matches!(
        sql_to_statements(Dialect::Mysql, "%%% not sql %%%"),
        Err(Error::NoStatements)
    ));
}

#[test]
fn auto_limit_caps_unlimited_selects() {
    let capped = apply_auto_limit("SELECT * FROM t".to_string(), true);
    assert_eq!(capped, "SELECT * FROM t LIMIT 1000");
}

#[test]
fn auto_limit_leaves_limited_and_non_selects() {
    assert_eq!(apply_auto_limit("SELECT * FROM t LIMIT 5".to_string(), true),
        "SELECT * FROM t LIMIT 5");
    assert_eq!(apply_auto_limit("SELECT * FROM t limit 5".to_string(), true),
        "SELECT * FROM t limit 5");
    assert_eq!(apply_auto_limit("DELETE FROM t".to_string(), true), "DELETE FROM t");
    assert_eq!(apply_auto_limit("SELECT * FROM t".to_string(), false), "SELECT * FROM t");
    assert_eq!(apply_auto_limit("EXPLAIN SELECT 1".to_string(), true), "EXPLAIN SELECT 1");
}

fn registered_connection(state: &mut AppState) -> String {
    let mut creds = Credentials::new();
    creds.insert("path".to_string(), ":memory:".to_string());
    let cfg = ConnectionConfig::new(Dialect::Sqlite, Mode::File, creds, "local", "green")
        .unwrap();
    let id = cfg.id.clone();
    let schema = cfg.schema.clone();
    let conn = InitiatedConnection { config: cfg, schema };
    state.connect(conn);
    id
}

#[test]
fn enqueue_two_statements_yields_two_cancellable_tasks() {
    let mut state = AppState::new();
    let conn_id = registered_connection(&mut state);
    let (tasks, receipt) =
        enqueue_query(&mut state, &conn_id, 0, "SELECT 1; SELECT 2;", false, None).unwrap();
    assert_eq!(tasks.len(), 2);
    assert_eq!(receipt.result_sets.len(), 2);
    assert_eq!(receipt.conn_id, conn_id);
    assert_eq!(receipt.tab_idx, 0);
    assert!(matches!(receipt.status, QueryTaskStatus::Progress));
    assert_eq!(tasks[0].query_idx, 0);
    assert_eq!(tasks[1].query_idx, 1);
    assert_eq!(tasks[0].query, "SELECT 1");
    assert_eq!(tasks[1].query, "SELECT 2");
    assert_ne!(tasks[0].id, tasks[1].id);
    assert_eq!(receipt.result_sets[0], tasks[0].id);
    assert_eq!(receipt.result_sets[1], tasks[1].id);
    assert!(state.cancel_tokens.get(&tasks[0].id).is_some());
    assert!(state.cancel_tokens.get(&tasks[1].id).is_some());

    state.cancel_token(&tasks[0].id);
    assert!(state.cancel_tokens.get(&tasks[0].id).is_none());
    assert!(token_is_cancelled(&tasks[0].cancel_token));
    assert!(!token_is_cancelled(&tasks[1].cancel_token));
    assert!(state.cancel_tokens.get(&tasks[1].id).is_some());
}

#[test]
fn enqueue_same_statement_same_position_gives_same_id() {
    let mut state = AppState::new();
    let conn_id = registered_connection(&mut state);
    let (t1, _) = enqueue_query(&mut state, &conn_id, 2, "SELECT 7;", false, None).unwrap();
    let (t2, _) = enqueue_query(&mut state, &conn_id, 2, "SELECT 7;", false, None).unwrap();
    assert_eq!(t1[0].id, t2[0].id);
    let (t3, _) = enqueue_query(&mut state, &conn_id, 3, "SELECT 7;", false, None).unwrap();
    assert_ne!(t1[0].id, t3[0].id);
}

#[test]
fn enqueue_rejects_unknown_connection_and_empty_script() {
    let mut state = AppState::new();
    let r = enqueue_query(&mut state, "no-such-id", 0, "SELECT 1;", false, None);
    assert!(matches!(r, Err(Error::Connect(_))));
    let conn_id = registered_connection(&mut state);
    let r = enqueue_query(&mut state, &conn_id, 0, "   ", false, None);
    assert!(matches!(r, Err(Error::NoStatements)));
}

#[test]
fn single_shot_takes_first_statement() {
    let p = noir::sql::prepare_execute_query("conn-1", Dialect::Postgresql,
        "SELECT 1; DELETE FROM t;").unwrap();
    assert_eq!(p.query, "SELECT 1");
    assert!(matches!(p.query_type, QueryType::Select));
    assert_eq!(p.query_idx, 0);
    assert_eq!(p.id, noir::crypto::md5_hash("conn-1SELECT 1"));
    assert!(matches!(
        noir::sql::prepare_execute_query("conn-1", Dialect::Postgresql, " "),
        Err(Error::NoStatements)
    ));
}

#[test]
fn completion_events_carry_the_statement_indices() {
    let mut state = AppState::new();
    let conn_id = registered_connection(&mut state);
    let (tasks, _) =
        enqueue_query(&mut state, &conn_id, 0, "SELECT 1; SELECT 2;", false, None).unwrap();
    let mut indices: Vec<usize> = Vec::new();
    for task in tasks {
        let rs = noir::connection::ResultSet {
            start_time: 0,
            end_time: 0,
            affected_rows: 0,
            rows: vec![],
            table: noir::connection::TableMetadata::empty(),
        };
        let report = noir::queue::task_report(
            task,
            noir::queue::TaskEvent::Finished(Ok(rs)),
            Some(Ok("/tmp/spool/x".to_string())),
        )
        .unwrap();
        indices.push(report.query_idx);
    }
    assert_eq!(indices, vec![0, 1]);
}
