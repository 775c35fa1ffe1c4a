use noir::config::{ConnectionConfig, Credentials, Dialect, Mode};
use noir::error::Error;

fn creds_of(pairs: &[(&str, &str)]) -> Credentials {
    let mut c = Credentials::new();
    for (k, v) in pairs {
        c.insert(k.to_string(), v.to_string());
    }
    c
}

#[test]
fn postgres_construction_scenario() {
    let creds = creds_of(&[
        ("user", "a"),
        ("password", "b"),
        ("db_name", "c"),
        ("host", "localhost"),
        ("port", "5432"),
    ]);
    let cfg = ConnectionConfig::new(Dialect::Postgresql, Mode::Host, creds, "prod", "blue")
        .unwrap();
    assert_eq!(cfg.dialect.as_str(), "Postgresql");
    assert_eq!(cfg.name, "prod");
    assert_eq!(cfg.color, "blue");
    assert_eq!(cfg.schema, "public");
    assert_eq!(cfg.id.len(), 36);
    assert_eq!(cfg.credentials.get("user"), Some("a".to_string()));
    assert_eq!(cfg.credentials.get("password"), Some("b".to_string()));
    assert_eq!(cfg.credentials.get("db_name"), Some("c".to_string()));
    assert_eq!(cfg.credentials.get("host"), Some("localhost".to_string()));
    assert_eq!(cfg.credentials.get("port"), Some("5432".to_string()));
}

#[test]
fn construction_filters_unknown_keys() {
    let creds = creds_of(&[("user", "a"), ("frobnicate", "x"), ("path", "/nope")]);
    let cfg = ConnectionConfig::new(Dialect::Postgresql, Mode::Host, creds, "n", "c").unwrap();
    assert_eq!(cfg.credentials.get("user"), Some("a".to_string()));
    assert_eq!(cfg.credentials.get("frobnicate"), None);
    assert_eq!(cfg.credentials.get("path"), None);
}

#[test]
fn construction_rejects_empty_name() {
    let r = ConnectionConfig::new(Dialect::Mysql, Mode::Host, Credentials::new(), "", "blue");
    assert!(matches!(r, Err(Error::EmptyName)));
}

#[test]
fn construction_rejects_empty_color() {
    let r = ConnectionConfig::new(Dialect::Mysql, Mode::Host, Credentials::new(), "name", "");
    assert!(matches!(r, Err(Error::EmptyColor)));
}

#[test]
fn mysql_schema_comes_from_db_name() {
    let creds = creds_of(&[("db_name", "shop"), ("ssl_mode", "require"), ("ca_cert", "/ca")]);
    let cfg = ConnectionConfig::new(Dialect::Mysql, Mode::Host, creds, "n", "c").unwrap();
    assert_eq!(cfg.schema, "shop");
    assert_eq!(cfg.credentials.get("ssl_mode"), Some("require".to_string()));
    assert_eq!(cfg.credentials.get("ca_cert"), Some("/ca".to_string()));
}

#[test]
fn mariadb_uses_mysql_allow_list() {
    let creds = creds_of(&[("db_name", "shop"), ("options", "x")]);
    let cfg = ConnectionConfig::new(Dialect::MariaDB, Mode::Host, creds, "n", "c").unwrap();
    assert_eq!(cfg.schema, "shop");
    assert_eq!(cfg.credentials.get("options"), None);
}

#[test]
fn sqlite_keeps_only_path() {
    let creds = creds_of(&[("path", "/tmp/a.db"), ("user", "a")]);
    let cfg = ConnectionConfig::new(Dialect::Sqlite, Mode::File, creds, "n", "c").unwrap();
    assert_eq!(cfg.schema, "/tmp/a.db");
    assert_eq!(cfg.credentials.get("path"), Some("/tmp/a.db".to_string()));
    assert_eq!(cfg.credentials.get("user"), None);
}

#[test]
fn credentials_later_insert_shadows() {
    let mut c = Credentials::new();
    c.insert("k".to_string(), "v1".to_string());
    c.insert("k".to_string(), "v2".to_string());
    assert_eq!(c.get("k"), Some("v2".to_string()));
    assert_eq!(c.get("missing"), None);
}

#[test]
fn dialect_names_round_trip() {
    for d in [Dialect::Mysql, Dialect::MariaDB, Dialect::Postgresql, Dialect::Sqlite] {
        assert_eq!(Dialect::from_name(d.as_str()), Some(d));
    }
    assert_eq!(Dialect::from_name("Oracle"), None);
}

#[test]
fn mode_names_round_trip() {
    for m in [Mode::Host, Mode::Socket, Mode::File, Mode::Ssh] {
        assert_eq!(Mode::from_name(m.as_str()), Some(m));
    }
    assert_eq!(Mode::from_name("Carrier"), None);
}
