use noir::connection::{ResultSet, TableMetadata};
use noir::spool::{
    download_csv_content, download_json_content, get_db_path, join_sep, metadata_json,
    paginate_lines, spool_rows_content, write_query_plan,
};
use noir::sql::QueryType;

fn strings(items: &[&str]) -> Vec<String> {
    items.iter().map(|s| s.to_string()).collect()
}

#[test]
fn rows_content_one_record_per_line() {
    assert_eq!(spool_rows_content(&strings(&[])), "");
    assert_eq!(spool_rows_content(&strings(&["{\"a\":1}"])), "{\"a\":1}\n");
    assert_eq!(spool_rows_content(&strings(&["a", "b", "c"])), "a\nb\nc\n");
}

#[test]
fn join_sep_matches_expectations() {
    assert_eq!(join_sep(&strings(&[]), ","), "");
    assert_eq!(join_sep(&strings(&["x"]), ","), "x");
    assert_eq!(join_sep(&strings(&["x", "y", "z"]), ", "), "x, y, z");
}

#[test]
fn metadata_json_exact() {
    let rs = ResultSet {
        start_time: 1,
        end_time: 2,
        affected_rows: 3,
        rows: strings(&["{\"x\":1}"]),
        table: TableMetadata {
            table: "t".to_string(),
            primary_key: None,
            foreign_keys: None,
            columns: Some(strings(&["{\"c\":1}"])),
        },
    };
    let json = metadata_json(QueryType::Select, &rs);
    assert_eq!(
        json,
        "{\"affected_rows\":3,\"columns\":[{\"c\":1}],\"count\":1,\"end_time\":2,\
         \"foreign_keys\":null,\"primary_key\":null,\"query_type\":\"Select\",\
         \"start_time\":1,\"table\":\"t\"}"
    );
    let parsed: serde_json::Value = serde_json::from_str(&json).unwrap();
    assert_eq!(parsed["count"], serde_json::Value::from(1u64));
    assert_eq!(parsed["table"], serde_json::Value::from("t"));
}

#[test]
fn write_query_plan_lays_out_both_files() {
    let rs = ResultSet {
        start_time: 0,
        end_time: 0,
        affected_rows: 0,
        rows: strings(&["r1", "r2"]),
        table: TableMetadata::empty(),
    };
    let plan = write_query_plan("abc123", &rs, QueryType::Select, "/tmp/spool");
    assert_eq!(plan.data_path, "/tmp/spool/abc123");
    assert_eq!(plan.metadata_path, "/tmp/spool/abc123.metadata");
    assert_eq!(plan.rows_content, "r1\nr2\n");
    assert!(plan.metadata_content.contains("\"count\":2"));
}

#[test]
fn pagination_slices_by_page() {
    let lines = strings(&["a", "b", "c", "d", "e"]);
    assert_eq!(paginate_lines(&lines, 0, 2), strings(&["a", "b"]));
    assert_eq!(paginate_lines(&lines, 1, 2), strings(&["c", "d"]));
    assert_eq!(paginate_lines(&lines, 2, 2), strings(&["e"]));
    assert_eq!(paginate_lines(&lines, 3, 2), strings(&[]));
    assert_eq!(paginate_lines(&lines, 100, 2), strings(&[]));
    assert_eq!(paginate_lines(&lines, 0, 0), strings(&[]));
    assert_eq!(paginate_lines(&lines, 0, 10), lines);
}

#[test]
fn pagination_is_idempotent() {
    let lines = strings(&["r1", "r2", "r3", "r4"]);
    let first = paginate_lines(&lines, 1, 2);
    let second = paginate_lines(&lines, 1, 2);
    assert_eq!(first, second);
}

#[test]
fn download_json_wraps_records() {
    let lines = strings(&["{\"a\":1}", "{\"b\":2}"]);
    assert_eq!(download_json_content(&lines), "[\n{\"a\":1},\n{\"b\":2}\n]");
    let parsed: serde_json::Value = serde_json::from_str(&download_json_content(&lines)).unwrap();
    assert_eq!(parsed.as_array().unwrap().len(), 2);
}

#[test]
fn download_csv_joins_keys_and_rows() {
    let keys = strings(&["a", "b"]);
    let rows = vec![strings(&["1", "2"]), strings(&["3", "4"])];
    assert_eq!(download_csv_content(&keys, &rows), "a,b\n1,2\n3,4");
    let empty: Vec<Vec<String>> = vec![];
    assert_eq!(download_csv_content(&keys, &empty), "a,b\n");
}

#[test]
fn db_path_under_app_dir() {
    assert_eq!(get_db_path("/home/user/.config/app"), "/home/user/.config/app/.app.db");
}

#[test]
fn table_structure_aggregates_listings() {
    let structure = noir::catalog::get_table_structure(
        "users",
        &strings(&["{\"column_name\":\"id\"}"]),
        &strings(&[]),
        &strings(&["{\"name\":\"idx_users\"}"]),
        &strings(&["{\"column_name\":\"id\"}"]),
        &strings(&[]),
    );
    let parsed: serde_json::Value = serde_json::from_str(&structure).unwrap();
    assert_eq!(parsed["table"], serde_json::Value::from("users"));
    assert_eq!(parsed["columns"].as_array().unwrap().len(), 1);
    assert_eq!(parsed["foreign_keys"].as_array().unwrap().len(), 0);
    assert_eq!(parsed["indices"].as_array().unwrap().len(), 1);
    assert_eq!(parsed["primary_key"].as_array().unwrap().len(), 1);
    assert_eq!(parsed["triggers"].as_array().unwrap().len(), 0);
}

#[test]
fn sqlite_schema_record_names_the_path() {
    let rec = noir::catalog::sqlite::schema_record("/tmp/data.db");
    assert_eq!(rec, "{\"schema\":\"/tmp/data.db\"}");
}
