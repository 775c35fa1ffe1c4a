use noir::builder::{
    build_mysql_plan, build_psql_plan, resolve_connection_plan, ConnectionPlan, MysqlTransport,
    SslMode, TlsChoice,
};
use noir::config::{ConnectionConfig, Credentials, Dialect, Mode};
use noir::connection::InitiatedConnection;
use noir::error::Error;
use noir::registry::{new_cancellation_token, AppState};

fn config_of(dialect: Dialect, mode: Mode, pairs: &[(&str, &str)]) -> ConnectionConfig {
    let mut creds = Credentials::new();
    for (k, v) in pairs {
        creds.insert(k.to_string(), v.to_string());
    }
    ConnectionConfig::new(dialect, mode, creds, "name", "color").unwrap()
}

#[test]
fn mysql_host_plan_reads_credentials() {
    let cfg = config_of(Dialect::Mysql, Mode::Host, &[
        ("host", "db.example"),
        ("port", "3307"),
        ("user", "u"),
        ("password", "p"),
        ("db_name", "shop"),
        ("ssl_mode", "require"),
        ("ca_cert", "/ca.pem"),
    ]);
    let plan = build_mysql_plan(&cfg, 6000).unwrap();
    match plan.transport {
        MysqlTransport::Tcp { host, port } => {
            assert_eq!(host, "db.example");
            assert_eq!(port, 3307);
        }
        _ => panic!("expected tcp transport"),
    }
    assert_eq!(plan.user, "u");
    assert_eq!(plan.password, "p");
    assert_eq!(plan.db_name, "shop");
    assert_eq!(plan.ssl, Some(SslMode::Require));
    assert_eq!(plan.ca_cert, Some("/ca.pem".to_string()));
    assert!(plan.client_pair.is_none());
    assert!(plan.tunnel.is_none());
}

#[test]
fn mysql_defaults_port_and_socket_mode() {
    let cfg = config_of(Dialect::Mysql, Mode::Host, &[("host", "h")]);
    let plan = build_mysql_plan(&cfg, 6000).unwrap();
    assert!(matches!(plan.transport, MysqlTransport::Tcp { port: 3306, .. }));

    let cfg = config_of(Dialect::Mysql, Mode::Socket, &[("socket", "/run/mysqld.sock")]);
    let plan = build_mysql_plan(&cfg, 6000).unwrap();
    match plan.transport {
        MysqlTransport::UnixSocket { socket } => assert_eq!(socket, "/run/mysqld.sock"),
        _ => panic!("expected socket transport"),
    }
}

#[test]
fn mysql_plan_rejections() {
    let cfg = config_of(Dialect::Mysql, Mode::File, &[]);
    assert!(matches!(build_mysql_plan(&cfg, 6000), Err(Error::FileModeUnsupported(_))));

    let cfg = config_of(Dialect::Mysql, Mode::Host, &[("client_cert", "/c.pem")]);
    assert!(matches!(build_mysql_plan(&cfg, 6000), Err(Error::CertPairMismatch)));

    let cfg = config_of(Dialect::Mysql, Mode::Host, &[("port", "not-a-port")]);
    assert!(matches!(build_mysql_plan(&cfg, 6000), Err(Error::InvalidPort)));

    let cfg = config_of(Dialect::Mysql, Mode::Host, &[("port", "70000")]);
    assert!(matches!(build_mysql_plan(&cfg, 6000), Err(Error::InvalidPort)));
}

#[test]
fn mysql_ssh_plan_rewrites_target() {
    let cfg = config_of(Dialect::MariaDB, Mode::Ssh, &[
        ("host", "10.0.0.5"),
        ("port", "3306"),
        ("ssh_host", "bastion.example"),
        ("ssh_port", "22"),
        ("ssh_user", "ops"),
    ]);
    let plan = build_mysql_plan(&cfg, 6123).unwrap();
    match plan.transport {
        MysqlTransport::Tcp { host, port } => {
            assert_eq!(host, "127.0.0.1");
            assert_eq!(port, 6123);
        }
        _ => panic!("expected tcp transport"),
    }
    let tunnel = plan.tunnel.unwrap();
    assert_eq!(tunnel.local_port, 6123);
    assert_eq!(tunnel.remote_host, "10.0.0.5");
    assert_eq!(tunnel.remote_port, 3306);
    assert_eq!(tunnel.ssh_host, "bastion.example");
    assert_eq!(tunnel.ssh_port, "22");
    assert_eq!(tunnel.ssh_user, "ops");
}

#[test]
fn psql_tls_selection() {
    let cfg = config_of(Dialect::Postgresql, Mode::Host, &[("ssl_mode", "require")]);
    assert_eq!(build_psql_plan(&cfg, 0).unwrap().tls, TlsChoice::NoVerifyTls);

    let cfg = config_of(Dialect::Postgresql, Mode::Host, &[
        ("ssl_mode", "prefer"),
        ("ca_cert", "/ca.pem"),
    ]);
    assert_eq!(build_psql_plan(&cfg, 0).unwrap().tls, TlsChoice::PeerCa);

    let cfg = config_of(Dialect::Postgresql, Mode::Host, &[
        ("ssl_mode", "require"),
        ("ca_cert", "/ca.pem"),
        ("client_cert", "/c.pem"),
        ("client_key", "/k.pem"),
    ]);
    assert_eq!(build_psql_plan(&cfg, 0).unwrap().tls, TlsChoice::PeerCaClient);

    let cfg = config_of(Dialect::Postgresql, Mode::Host, &[]);
    let plan = build_psql_plan(&cfg, 0).unwrap();
    assert_eq!(plan.tls, TlsChoice::NoTls);
    assert_eq!(plan.ssl_mode, SslMode::Disable);
    assert_eq!(plan.connect_timeout_secs, 15);
}

#[test]
fn psql_plan_reads_account_and_rejects_lone_cert() {
    let cfg = config_of(Dialect::Postgresql, Mode::Host, &[
        ("user", "u"),
        ("password", "p"),
        ("db_name", "d"),
        ("host", "h"),
        ("port", "5433"),
    ]);
    let plan = build_psql_plan(&cfg, 0).unwrap();
    assert_eq!(plan.user, Some("u".to_string()));
    assert_eq!(plan.password, Some("p".to_string()));
    assert_eq!(plan.dbname, Some("d".to_string()));
    assert_eq!(plan.host, Some("h".to_string()));
    assert_eq!(plan.port, Some(5433));
    assert!(plan.tunnel.is_none());

    let cfg = config_of(Dialect::Postgresql, Mode::Host, &[("client_key", "/k.pem")]);
    assert!(matches!(build_psql_plan(&cfg, 0), Err(Error::CertPairMismatch)));
}

#[test]
fn psql_ssh_plan_uses_forwarded_port() {
    let cfg = config_of(Dialect::Postgresql, Mode::Ssh, &[
        ("host", "10.1.1.1"),
        ("ssh_host", "unreachable.invalid"),
        ("ssh_user", "ops"),
    ]);
    let plan = build_psql_plan(&cfg, 7001).unwrap();
    assert_eq!(plan.host, Some("127.0.0.1".to_string()));
    assert_eq!(plan.port, Some(7001));
    let tunnel = plan.tunnel.unwrap();
    assert_eq!(tunnel.remote_port, 5432);
    assert_eq!(tunnel.ssh_host, "unreachable.invalid");
}

#[test]
fn sqlite_requires_file_mode() {
    let cfg = config_of(Dialect::Sqlite, Mode::Host, &[("path", "/tmp/x.db")]);
    assert!(matches!(resolve_connection_plan(&cfg, 0), Err(Error::FileModeRequired)));

    let cfg = config_of(Dialect::Sqlite, Mode::File, &[("path", "/tmp/x.db")]);
    match resolve_connection_plan(&cfg, 0).unwrap() {
        ConnectionPlan::Sqlite(p) => assert_eq!(p.path, "/tmp/x.db"),
        _ => panic!("expected sqlite plan"),
    }
}

#[test]
fn failed_ssh_build_leaves_no_registry_entry() {
    let mut state = AppState::new();
    let cfg = config_of(Dialect::Postgresql, Mode::Ssh, &[
        ("host", "10.1.1.1"),
        ("ssh_host", "unreachable.invalid"),
        ("ssh_user", "ops"),
    ]);
    let conn_id = cfg.id.clone();
    // The runtime layer registered the tunnel's lifetime before probing.
    state.register_token(conn_id.clone(), new_cancellation_token());
    // The probe failed: no connection was built.
    let r = state.finish_init_connection(&conn_id, None);
    assert!(matches!(r, Err(Error::Connect(_))));
    assert!(state.acquire_connection(&conn_id).is_none());
    assert!(state.cancel_tokens.get(&conn_id).is_none());
}

#[test]
fn successful_build_is_registered() {
    let mut state = AppState::new();
    let cfg = config_of(Dialect::Postgresql, Mode::Host, &[("user", "u")]);
    let conn_id = cfg.id.clone();
    let schema = cfg.schema.clone();
    let conn = InitiatedConnection { config: cfg, schema };
    let r = state.finish_init_connection(&conn_id, Some(conn));
    assert_eq!(r.unwrap(), "public");
    assert!(state.acquire_connection(&conn_id).is_some());
    state.disconnect(&conn_id);
    assert!(state.acquire_connection(&conn_id).is_none());
}
