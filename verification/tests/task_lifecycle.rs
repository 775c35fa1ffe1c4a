use noir::config::{ConnectionConfig, Credentials, Dialect, Mode};
use noir::connection::{InitiatedConnection, ResultSet, TableMetadata};
use noir::error::Error;
use noir::queue::{
    task_report, Events, QueryTask, QueryTaskResult, QueryTaskStatus, TaskEvent,
};
use noir::registry::new_cancellation_token;
use noir::tx::{drive_tx, tx_next, TxAction};

fn sample_conn() -> InitiatedConnection {
    let mut creds = Credentials::new();
    creds.insert("path".to_string(), ":memory:".to_string());
    let cfg = ConnectionConfig::new(Dialect::Sqlite, Mode::File, creds, "local", "green")
        .unwrap();
    let schema = cfg.schema.clone();
    InitiatedConnection { config: cfg, schema }
}

fn sample_task() -> QueryTask {
    QueryTask::new(
        sample_conn(),
        ("SELECT 1".to_string(), noir::sql::QueryType::Select, "id-1".to_string()),
        4,
        1,
        None,
        new_cancellation_token(),
    )
}

fn sample_result_set() -> ResultSet {
    ResultSet {
        start_time: 10,
        end_time: 20,
        affected_rows: 0,
        rows: vec!["{\"n\":1}".to_string()],
        table: TableMetadata::empty(),
    }
}

#[test]
fn events_name() {
    assert_eq!(Events::QueryFinished.as_str(), "query_finished");
}

#[test]
fn task_status_starts_in_progress() {
    let status: QueryTaskStatus = Default::default();
    assert!(matches!(status, QueryTaskStatus::Progress));
    assert!(matches!(sample_task().status, QueryTaskStatus::Progress));
}

#[test]
fn success_report_carries_path_and_count() {
    let task = sample_task();
    let conn_id = task.conn.config.id.clone();
    let rs = sample_result_set();
    let out = QueryTaskResult::success(task, &rs, "/tmp/spool/id-1".to_string());
    assert_eq!(out.conn_id, conn_id);
    assert!(matches!(out.status, QueryTaskStatus::Completed));
    assert_eq!(out.query, "SELECT 1");
    assert_eq!(out.id, "id-1");
    assert_eq!(out.path, Some("/tmp/spool/id-1".to_string()));
    assert_eq!(out.count, Some(1));
    assert_eq!(out.error, None);
    assert_eq!(out.tab_idx, 4);
    assert_eq!(out.query_idx, 1);
}

#[test]
fn error_report_carries_message() {
    let out = QueryTaskResult::error(sample_task(), Error::QueryExpired);
    assert!(matches!(out.status, QueryTaskStatus::Error));
    assert_eq!(out.error, Some("Query results expired, please re-run the query.".to_string()));
    assert_eq!(out.path, None);
    assert_eq!(out.count, None);
}

#[test]
fn cancelled_task_reports_nothing() {
    let report = task_report(sample_task(), TaskEvent::Cancelled, None);
    assert!(report.is_none());
}

#[test]
fn finished_task_reports_after_spool_write() {
    let rs = sample_result_set();
    let report = task_report(
        sample_task(),
        TaskEvent::Finished(Ok(rs)),
        Some(Ok("/tmp/spool/id-1".to_string())),
    );
    let out = report.unwrap();
    assert!(matches!(out.status, QueryTaskStatus::Completed));
    assert_eq!(out.path, Some("/tmp/spool/id-1".to_string()));

    let report = task_report(
        sample_task(),
        TaskEvent::Finished(Err(Error::Tx("boom".to_string()))),
        None,
    );
    let out = report.unwrap();
    assert!(matches!(out.status, QueryTaskStatus::Error));
    assert_eq!(out.error, Some("Query failed: boom".to_string()));
}

#[test]
fn failed_spool_write_reports_the_write_error() {
    let rs = sample_result_set();
    let report = task_report(
        sample_task(),
        TaskEvent::Finished(Ok(rs)),
        Some(Err(Error::QueryExpired)),
    );
    let out = report.unwrap();
    assert!(matches!(out.status, QueryTaskStatus::Error));
    assert!(out.path.is_none());
}

#[test]
fn set_schema_rebinds_and_records() {
    let conn = sample_conn();
    let rebound = conn.set_schema("/tmp/other.db".to_string());
    assert_eq!(rebound.get_schema(), "/tmp/other.db");
    assert_eq!(rebound.config.credentials.get("path"), Some("/tmp/other.db".to_string()));
}

#[test]
fn tx_driver_rolls_back_on_any_failure() {
    assert_eq!(tx_next(3, 0, false), TxAction::Execute { idx: 0 });
    assert_eq!(tx_next(3, 3, false), TxAction::Commit);
    assert_eq!(tx_next(3, 1, true), TxAction::Rollback);
    assert_eq!(tx_next(3, 3, true), TxAction::Rollback);

    assert_eq!(drive_tx(&vec![true, true, true]), (3, true));
    assert_eq!(drive_tx(&vec![]), (0, true));
    assert_eq!(drive_tx(&vec![true, false, true]), (2, false));
    assert_eq!(drive_tx(&vec![false]), (1, false));
}
