use noir::catalog::{mysql, postgresql, sqlite};
use noir::text::{
    bytes_to_hex_lower, contains_ci, date_string, parse_u16, str_eq, time_string, u64_to_string,
};

#[test]
fn decimal_rendering() {
    assert_eq!(u64_to_string(0), "0");
    assert_eq!(u64_to_string(7), "7");
    assert_eq!(u64_to_string(1000), "1000");
    assert_eq!(u64_to_string(u64::MAX), "18446744073709551615");
}

#[test]
fn hex_rendering() {
    assert_eq!(bytes_to_hex_lower(&vec![]), "");
    assert_eq!(bytes_to_hex_lower(&vec![0x00, 0xff, 0x1a]), "00ff1a");
}

#[test]
fn port_parsing() {
    assert_eq!(parse_u16("5432"), Some(5432));
    assert_eq!(parse_u16("0"), Some(0));
    assert_eq!(parse_u16("65535"), Some(65535));
    assert_eq!(parse_u16("65536"), None);
    assert_eq!(parse_u16(""), None);
    assert_eq!(parse_u16("12x"), None);
    assert_eq!(parse_u16("-1"), None);
}

#[test]
fn case_insensitive_containment() {
    assert!(contains_ci("SELECT * FROM t LIMIT 5", "limit"));
    assert!(contains_ci("select * from t Limit 5", "limit"));
    assert!(!contains_ci("SELECT * FROM t", "limit"));
    assert!(contains_ci("anything", ""));
    assert!(!contains_ci("ab", "abc"));
}

#[test]
fn string_equality_by_content() {
    assert!(str_eq("abc", "abc"));
    assert!(!str_eq("abc", "abd"));
    assert!(!str_eq("abc", "ab"));
    assert!(str_eq("", ""));
}

#[test]
fn date_and_time_rendering() {
    assert_eq!(date_string(2024, 3, 9), "2024-3-9");
    assert_eq!(time_string(false, 1, 2, 3, 0), "1:2:30");
    assert_eq!(time_string(true, 10, 20, 30, 4), "-10:20:304");
}

#[test]
fn mysql_catalog_queries() {
    let q = mysql::columns_query("shop", Some("users"));
    assert!(q.ends_with(" ORDER BY ORDINAL_POSITION;"));
    assert!(q.contains("TABLE_SCHEMA = 'shop'"));
    assert!(q.contains("AND TABLE_NAME = 'users'"));
    let q = mysql::columns_query("shop", None);
    assert!(q.ends_with(" ORDER BY ORDINAL_POSITION;"));
    assert!(!q.contains("AND TABLE_NAME"));

    assert!(mysql::primary_key_query("s", "t").contains("CONSTRAINT_NAME = 'PRIMARY'"));
    assert!(mysql::foreign_keys_query("s", "t").contains("referential_constraints"));
    assert_eq!(mysql::functions_query("db"), "SHOW FUNCTION STATUS WHERE DB = 'db';");
    assert!(mysql::procedures_query("s").contains("routine_type = 'PROCEDURE'"));
    assert!(mysql::indices_query("s", "t").ends_with(" and TABLE_NAME = 't';"));
    assert!(mysql::triggers_query("s", None).ends_with("EVENT_OBJECT_SCHEMA = 's';"));
    assert!(mysql::triggers_query("s", Some("t")).ends_with("AND EVENT_OBJECT_TABLE = 't';"));
    assert!(mysql::schemas_query().contains("information_schema.schemata"));
    assert!(mysql::views_query("s").contains("TABLE_TYPE LIKE 'VIEW'"));
}

#[test]
fn postgresql_catalog_queries() {
    let q = postgresql::columns_query("public", Some("users"));
    assert!(q.ends_with(" ORDER BY ORDINAL_POSITION;"));
    assert!(q.contains("TABLE_SCHEMA = 'public'"));
    let q = postgresql::columns_query("public", None);
    assert!(q.ends_with(" ORDER BY ORDINAL_POSITION;"));

    assert!(postgresql::primary_key_query("s", "t").contains("'PRIMARY KEY'"));
    assert!(postgresql::foreign_keys_query("s", "t").contains("'FOREIGN KEY'"));
    assert!(postgresql::functions_query("s").contains("routine_type = 'FUNCTION'"));
    assert!(postgresql::indices_query("s", "t").contains("pg_indexes"));
    assert!(postgresql::triggers_query("s", Some("t")).ends_with("EVENT_OBJECT_TABLE = 't';"));
    assert!(postgresql::schemas_query().contains("schemata"));
    assert!(postgresql::views_query("s").contains("INFORMATION_SCHEMA.views"));
}

#[test]
fn sqlite_catalog_queries() {
    assert_eq!(sqlite::table_info_query("users"), "PRAGMA table_info('users');");
    assert_eq!(sqlite::foreign_key_list_query("users"), "PRAGMA foreign_key_list('users');");
    assert!(sqlite::tables_query(None).contains("sqlite_master"));
    assert!(sqlite::tables_query(Some("t")).ends_with("AND tbl_name = 't';"));
    assert!(sqlite::indices_query("t").contains("type = 'index'"));
    assert!(sqlite::triggers_query(None).ends_with("type='trigger';"));
    assert_eq!(sqlite::views_query(), "SELECT * FROM sqlite_master WHERE type='view'");
}

#[test]
fn sqlite_column_record_shape() {
    let rec = sqlite::column_record("id", "INTEGER", true, &None, 1, "users");
    assert_eq!(
        rec,
        "{\"column_default\":null,\"column_name\":\"id\",\"column_type\":\"INTEGER\",\
         \"is_nullable\":false,\"primary_key\":1,\"table_name\":\"users\"}"
    );
    let parsed: serde_json::Value = serde_json::from_str(&rec).unwrap();
    assert_eq!(parsed["is_nullable"], serde_json::Value::from(false));

    let rec = sqlite::column_record("name", "TEXT", false, &Some("'x'".to_string()), 0, "users");
    let parsed: serde_json::Value = serde_json::from_str(&rec).unwrap();
    assert_eq!(parsed["column_default"], serde_json::Value::from("'x'"));
    assert_eq!(parsed["is_nullable"], serde_json::Value::from(true));
}

#[test]
fn sqlite_foreign_key_record_shape() {
    let rec = sqlite::foreign_key_record(0, "orders", "user_id", "users", "id");
    let parsed: serde_json::Value = serde_json::from_str(&rec).unwrap();
    assert_eq!(parsed["constraint_type"], serde_json::Value::from("FOREIGN KEY"));
    assert_eq!(parsed["column_name"], serde_json::Value::from("user_id"));
    assert_eq!(parsed["referenced_table_name"], serde_json::Value::from("users"));
    assert_eq!(parsed["referenced_column_name"], serde_json::Value::from("id"));
}
