use vstd::prelude::*;
use crate::config::{ConnectionConfig, Credentials, Dialect, Mode};
use crate::connection::InitiatedConnection;
use crate::error::Error;
use crate::text::{parse_u16, spec_parse_u16, str_eq};

verus! {

// ---------------------------------------------------------------------------
// Credential readings
// ---------------------------------------------------------------------------

/// The value stored under a key, or the empty text.
pub open spec fn spec_cred(creds: Map<Seq<char>, Seq<char>>, k: Seq<char>) -> Seq<char> {
    if creds.contains_key(k) {
        creds[k]
    } else {
        Seq::empty()
    }
}

/// A key present with a non-empty value.
pub open spec fn spec_has(creds: Map<Seq<char>, Seq<char>>, k: Seq<char>) -> bool {
    creds.contains_key(k) && creds[k].len() > 0
}

/// Reads a credential as text, absent keys reading as empty.
fn cred_or_empty(creds: &Credentials, k: &str) -> (r: String)
    ensures
        r@ == spec_cred(creds@, k@),
{
    match creds.get(k) {
        Some(v) => v,
        None => String::new(),
    }
}

// ---------------------------------------------------------------------------
// TLS selection
// ---------------------------------------------------------------------------

/// The `ssl_mode` credential's reading.
#[derive(Clone, Copy, Debug, PartialEq, Eq, Structural)]
pub enum SslMode {
    Disable,
    Prefer,
    Require,
}

/// `prefer` and `require` select those modes; any other value, and an
/// absent key, fall back to `disable`.
pub open spec fn spec_ssl_mode(creds: Map<Seq<char>, Seq<char>>) -> Option<SslMode> {
    if creds.contains_key("ssl_mode"@) {
        if creds["ssl_mode"@] == "prefer"@ {
            Some(SslMode::Prefer)
        } else if creds["ssl_mode"@] == "require"@ {
            Some(SslMode::Require)
        } else {
            Some(SslMode::Disable)
        }
    } else {
        None
    }
}

/// Reads the `ssl_mode` credential; `None` means the key was absent.
fn ssl_mode_of(creds: &Credentials) -> (r: Option<SslMode>)
    ensures
        r == spec_ssl_mode(creds@),
{
    match creds.get("ssl_mode") {
        None => None,
        Some(v) => {
            if str_eq(v.as_str(), "prefer") {
                Some(SslMode::Prefer)
            } else if str_eq(v.as_str(), "require") {
                Some(SslMode::Require)
            } else {
                Some(SslMode::Disable)
            }
        },
    }
}

/// Exactly one of the client certificate and the client key is set.
pub open spec fn spec_cert_mismatch(creds: Map<Seq<char>, Seq<char>>) -> bool {
    spec_has(creds, "client_cert"@) != spec_has(creds, "client_key"@)
}

/// The client certificate/key pair: both present, neither, or an error
/// where only one of the two was given.
fn cert_pair(creds: &Credentials) -> (r: Result<Option<(String, String)>, Error>)
    ensures
        spec_cert_mismatch(creds@) ==> r == Result::<Option<(String, String)>, Error>::Err(
            Error::CertPairMismatch,
        ),
        !spec_cert_mismatch(creds@) && spec_has(creds@, "client_cert"@) ==> (r matches Ok(p)
            && p matches Some(pair) && pair.0@ == creds@["client_cert"@] && pair.1@
            == creds@["client_key"@]),
        !spec_cert_mismatch(creds@) && !spec_has(creds@, "client_cert"@) ==> (r matches Ok(p)
            && p is None),
{
    let cert = creds.get_non_empty("client_cert");
    let key = creds.get_non_empty("client_key");
    match (cert, key) {
        (Some(c), Some(k)) => Ok(Some((c, k))),
        (None, None) => Ok(None),
        _ => Err(Error::CertPairMismatch),
    }
}

/// How the PostgreSQL pool's TLS is to be configured.
#[derive(Clone, Copy, Debug, PartialEq, Eq, Structural)]
pub enum TlsChoice {
    /// No TLS at all.
    NoTls,
    /// TLS without peer verification — self-signed servers pass.
    NoVerifyTls,
    /// Peer verification against a pinned CA certificate.
    PeerCa,
    /// Peer verification plus a client certificate and key.
    PeerCaClient,
}

/// The TLS strategy the pool builder must take: with TLS asked for, a full
/// CA plus client pair pins both sides, a CA alone verifies the peer, and
/// nothing at all falls back to unverified TLS.
pub open spec fn spec_tls_choice(creds: Map<Seq<char>, Seq<char>>, ssl: SslMode) -> TlsChoice {
    if ssl == SslMode::Prefer || ssl == SslMode::Require {
        if spec_has(creds, "ca_cert"@) && spec_has(creds, "client_cert"@) && spec_has(
            creds,
            "client_key"@,
        ) {
            TlsChoice::PeerCaClient
        } else if spec_has(creds, "ca_cert"@) {
            TlsChoice::PeerCa
        } else {
            TlsChoice::NoVerifyTls
        }
    } else {
        TlsChoice::NoTls
    }
}

// ---------------------------------------------------------------------------
// Ports and tunnels
// ---------------------------------------------------------------------------

/// The port credential's reading: the default where absent, the parsed
/// value where it parses, and `None` — an error — where it does not.
pub open spec fn spec_port_of(creds: Map<Seq<char>, Seq<char>>, default: u16) -> Option<u16> {
    if creds.contains_key("port"@) {
        spec_parse_u16(creds["port"@])
    } else {
        Some(default)
    }
}

fn port_of(creds: &Credentials, default: u16) -> (r: Option<u16>)
    ensures
        r == spec_port_of(creds@, default),
{
    match creds.get("port") {
        None => Some(default),
        Some(p) => parse_u16(p.as_str()),
    }
}

/// The parsed port under the successful reading, used by the tunnel specs.
pub open spec fn spec_port_val(creds: Map<Seq<char>, Seq<char>>, default: u16) -> u16 {
    match spec_port_of(creds, default) {
        Some(p) => p,
        None => 0,
    }
}

/// An SSH tunnel to spawn before connecting: forward a locally bound
/// ephemeral port to the remote database through the configured SSH host.
pub struct TunnelRequest {
    pub local_port: u16,
    pub remote_host: String,
    pub remote_port: u16,
    pub ssh_host: String,
    pub ssh_port: String,
    pub ssh_user: String,
    pub ssh_key: String,
}

/// A tunnel request shaped exactly by the credentials: the remote endpoint
/// and the SSH account, with the locally chosen port.
pub open spec fn spec_tunnel_ok(
    t: TunnelRequest,
    creds: Map<Seq<char>, Seq<char>>,
    local_port: u16,
    remote_port: u16,
) -> bool {
    &&& t.local_port == local_port
    &&& t.remote_host@ == spec_cred(creds, "host"@)
    &&& t.remote_port == remote_port
    &&& t.ssh_host@ == spec_cred(creds, "ssh_host"@)
    &&& t.ssh_port@ == spec_cred(creds, "ssh_port"@)
    &&& t.ssh_user@ == spec_cred(creds, "ssh_user"@)
    &&& t.ssh_key@ == spec_cred(creds, "ssh_key"@)
}

fn tunnel_request(creds: &Credentials, local_port: u16, remote_port: u16) -> (r: TunnelRequest)
    ensures
        spec_tunnel_ok(r, creds@, local_port, remote_port),
{
    TunnelRequest {
        local_port,
        remote_host: cred_or_empty(creds, "host"),
        remote_port,
        ssh_host: cred_or_empty(creds, "ssh_host"),
        ssh_port: cred_or_empty(creds, "ssh_port"),
        ssh_user: cred_or_empty(creds, "ssh_user"),
        ssh_key: cred_or_empty(creds, "ssh_key"),
    }
}

// ---------------------------------------------------------------------------
// MySQL / MariaDB plans
// ---------------------------------------------------------------------------

/// How the MySQL pool reaches its server.
pub enum MysqlTransport {
    Tcp { host: String, port: u16 },
    UnixSocket { socket: String },
}

/// Everything the MySQL pool builder needs, resolved from the credentials:
/// transport, account, TLS material, and the tunnel to raise first, if any.
pub struct MysqlPlan {
    pub transport: MysqlTransport,
    pub user: String,
    pub password: String,
    pub db_name: String,
    pub ssl: Option<SslMode>,
    pub ca_cert: Option<String>,
    pub client_pair: Option<(String, String)>,
    pub tunnel: Option<TunnelRequest>,
}

/// A MySQL plan shaped exactly by the configuration.
pub open spec fn spec_mysql_plan_ok(
    p: MysqlPlan,
    creds: Map<Seq<char>, Seq<char>>,
    mode: Mode,
    ephemeral_port: u16,
) -> bool {
    &&& p.user@ == spec_cred(creds, "user"@)
    &&& p.password@ == spec_cred(creds, "password"@)
    &&& p.db_name@ == spec_cred(creds, "db_name"@)
    &&& (match mode {
        Mode::Host => {
            &&& (p.transport matches MysqlTransport::Tcp { host, port } && host@ == spec_cred(
                creds,
                "host"@,
            ) && Some(port) == spec_port_of(creds, 3306))
            &&& p.tunnel is None
            &&& p.ssl == spec_ssl_mode(creds)
            &&& (p.ca_cert matches Some(c) ==> spec_has(creds, "ca_cert"@) && c@ == creds["ca_cert"@])
            &&& (p.ca_cert is None ==> !spec_has(creds, "ca_cert"@))
            &&& (p.client_pair matches Some(pair) ==> spec_has(creds, "client_cert"@) && pair.0@
                == creds["client_cert"@] && pair.1@ == creds["client_key"@])
            &&& (p.client_pair is None ==> !spec_has(creds, "client_cert"@))
        },
        Mode::Socket => {
            &&& (p.transport matches MysqlTransport::UnixSocket { socket } && socket@ == spec_cred(
                creds,
                "socket"@,
            ))
            &&& p.tunnel is None
            &&& p.ssl is None
            &&& p.ca_cert is None
            &&& p.client_pair is None
        },
        Mode::Ssh => {
            &&& (p.transport matches MysqlTransport::Tcp { host, port } && host@ == "127.0.0.1"@
                && port == ephemeral_port)
            &&& (p.tunnel matches Some(t) && spec_tunnel_ok(
                t,
                creds,
                ephemeral_port,
                spec_port_val(creds, 3306),
            ))
            &&& p.ssl == spec_ssl_mode(creds)
            &&& (p.ca_cert matches Some(c) ==> spec_has(creds, "ca_cert"@) && c@ == creds["ca_cert"@])
            &&& (p.ca_cert is None ==> !spec_has(creds, "ca_cert"@))
            &&& (p.client_pair matches Some(pair) ==> spec_has(creds, "client_cert"@) && pair.0@
                == creds["client_cert"@] && pair.1@ == creds["client_key"@])
            &&& (p.client_pair is None ==> !spec_has(creds, "client_cert"@))
        },
        Mode::File => false,
    })
}

/// Resolves a MySQL or MariaDB configuration into a pool plan. File
/// transport is rejected; a lone client certificate or key is rejected; a
/// present but unparseable port is rejected. Under SSH the target is
/// rewritten to the locally forwarded port.
pub fn build_mysql_plan(cfg: &ConnectionConfig, ephemeral_port: u16) -> (r: Result<
    MysqlPlan,
    Error,
>)
    ensures
        cfg.mode == Mode::File ==> r == Result::<MysqlPlan, Error>::Err(
            Error::FileModeUnsupported(cfg.dialect),
        ),
        cfg.mode != Mode::File && spec_cert_mismatch(cfg.credentials@) ==> r == Result::<
            MysqlPlan,
            Error,
        >::Err(Error::CertPairMismatch),
        cfg.mode != Mode::File && !spec_cert_mismatch(cfg.credentials@) && (cfg.mode == Mode::Host
            || cfg.mode == Mode::Ssh) && spec_port_of(cfg.credentials@, 3306) is None ==> r
            == Result::<MysqlPlan, Error>::Err(Error::InvalidPort),
        cfg.mode != Mode::File && !spec_cert_mismatch(cfg.credentials@) && ((cfg.mode == Mode::Host
            || cfg.mode == Mode::Ssh) ==> spec_port_of(cfg.credentials@, 3306) is Some) ==> (
        r matches Ok(p) && spec_mysql_plan_ok(p, cfg.credentials@, cfg.mode, ephemeral_port)),
{
    if matches!(cfg.mode, Mode::File) {
        return Err(Error::FileModeUnsupported(cfg.dialect));
    }
    let pair = match cert_pair(&cfg.credentials) {
        Err(e) => {
            return Err(e);
        },
        Ok(p) => p,
    };
    let user = cred_or_empty(&cfg.credentials, "user");
    let password = cred_or_empty(&cfg.credentials, "password");
    let db_name = cred_or_empty(&cfg.credentials, "db_name");
    match cfg.mode {
        Mode::Socket => Ok(
            MysqlPlan {
                transport: MysqlTransport::UnixSocket {
                    socket: cred_or_empty(&cfg.credentials, "socket"),
                },
                user,
                password,
                db_name,
                ssl: None,
                ca_cert: None,
                client_pair: None,
                tunnel: None,
            },
        ),
        Mode::Host => {
            let port = match port_of(&cfg.credentials, 3306) {
                None => {
                    return Err(Error::InvalidPort);
                },
                Some(p) => p,
            };
            Ok(
                MysqlPlan {
                    transport: MysqlTransport::Tcp {
                        host: cred_or_empty(&cfg.credentials, "host"),
                        port,
                    },
                    user,
                    password,
                    db_name,
                    ssl: ssl_mode_of(&cfg.credentials),
                    ca_cert: cfg.credentials.get_non_empty("ca_cert"),
                    client_pair: pair,
                    tunnel: None,
                },
            )
        },
        _ => {
            let remote_port = match port_of(&cfg.credentials, 3306) {
                None => {
                    return Err(Error::InvalidPort);
                },
                Some(p) => p,
            };
            Ok(
                MysqlPlan {
                    transport: MysqlTransport::Tcp {
                        host: String::from_str("127.0.0.1"),
                        port: ephemeral_port,
                    },
                    user,
                    password,
                    db_name,
                    ssl: ssl_mode_of(&cfg.credentials),
                    ca_cert: cfg.credentials.get_non_empty("ca_cert"),
                    client_pair: pair,
                    tunnel: Some(tunnel_request(&cfg.credentials, ephemeral_port, remote_port)),
                },
            )
        },
    }
}

// ---------------------------------------------------------------------------
// PostgreSQL plans
// ---------------------------------------------------------------------------

/// Everything the PostgreSQL pool builder needs: the account, the endpoint,
/// the TLS strategy with its material, and the tunnel to raise first.
pub struct PsqlPlan {
    pub user: Option<String>,
    pub password: Option<String>,
    pub dbname: Option<String>,
    pub host: Option<String>,
    pub port: Option<u16>,
    pub connect_timeout_secs: u64,
    pub ssl_mode: SslMode,
    pub tls: TlsChoice,
    pub ca_cert: Option<String>,
    pub client_pair: Option<(String, String)>,
    pub tunnel: Option<TunnelRequest>,
}

/// An optional string that reads back a key: present with the stored text
/// exactly when the key is present.
pub open spec fn spec_opt_cred(
    v: Option<String>,
    creds: Map<Seq<char>, Seq<char>>,
    k: Seq<char>,
) -> bool {
    match v {
        Some(s) => creds.contains_key(k) && s@ == creds[k],
        None => !creds.contains_key(k),
    }
}

/// A PostgreSQL plan shaped exactly by the configuration.
pub open spec fn spec_psql_plan_ok(
    p: PsqlPlan,
    creds: Map<Seq<char>, Seq<char>>,
    mode: Mode,
    ephemeral_port: u16,
) -> bool {
    &&& spec_opt_cred(p.user, creds, "user"@)
    &&& spec_opt_cred(p.password, creds, "password"@)
    &&& spec_opt_cred(p.dbname, creds, "db_name"@)
    &&& p.connect_timeout_secs == 15
    &&& Some(p.ssl_mode) == (match spec_ssl_mode(creds) {
        Some(m) => Some(m),
        None => Some(SslMode::Disable),
    })
    &&& p.tls == spec_tls_choice(creds, p.ssl_mode)
    &&& (p.ca_cert matches Some(c) ==> spec_has(creds, "ca_cert"@) && c@ == creds["ca_cert"@])
    &&& (p.ca_cert is None ==> !spec_has(creds, "ca_cert"@))
    &&& (p.client_pair matches Some(pair) ==> spec_has(creds, "client_cert"@) && pair.0@
        == creds["client_cert"@] && pair.1@ == creds["client_key"@])
    &&& (p.client_pair is None ==> !spec_has(creds, "client_cert"@))
    &&& (match mode {
        Mode::Ssh => {
            &&& (p.host matches Some(h) && h@ == "127.0.0.1"@)
            &&& p.port == Some(ephemeral_port)
            &&& (p.tunnel matches Some(t) && spec_tunnel_ok(
                t,
                creds,
                ephemeral_port,
                spec_port_val(creds, 5432),
            ))
        },
        Mode::File => false,
        _ => {
            &&& spec_opt_cred(p.host, creds, "host"@)
            &&& (creds.contains_key("port"@) ==> p.port == spec_parse_u16(creds["port"@]))
            &&& (!creds.contains_key("port"@) ==> p.port is None)
            &&& p.tunnel is None
        },
    })
}

/// Resolves a PostgreSQL configuration into a pool plan, selecting the TLS
/// strategy the way the pool builder must: peer verification exactly when a
/// CA certificate is pinned, a client pair only together, and plain TCP
/// when TLS was not asked for.
pub fn build_psql_plan(cfg: &ConnectionConfig, ephemeral_port: u16) -> (r: Result<PsqlPlan, Error>)
    ensures
        cfg.mode == Mode::File ==> r == Result::<PsqlPlan, Error>::Err(
            Error::FileModeUnsupported(cfg.dialect),
        ),
        cfg.mode != Mode::File && spec_port_of(cfg.credentials@, 5432) is None ==> r == Result::<
            PsqlPlan,
            Error,
        >::Err(Error::InvalidPort),
        cfg.mode != Mode::File && spec_port_of(cfg.credentials@, 5432) is Some
            && spec_cert_mismatch(cfg.credentials@) ==> r == Result::<PsqlPlan, Error>::Err(
            Error::CertPairMismatch,
        ),
        cfg.mode != Mode::File && spec_port_of(cfg.credentials@, 5432) is Some
            && !spec_cert_mismatch(cfg.credentials@) ==> (r matches Ok(p) && spec_psql_plan_ok(
            p,
            cfg.credentials@,
            cfg.mode,
            ephemeral_port,
        )),
{
    if matches!(cfg.mode, Mode::File) {
        return Err(Error::FileModeUnsupported(cfg.dialect));
    }
    let parsed_port = match port_of(&cfg.credentials, 5432) {
        None => {
            return Err(Error::InvalidPort);
        },
        Some(p) => p,
    };
    let pair = match cert_pair(&cfg.credentials) {
        Err(e) => {
            return Err(e);
        },
        Ok(p) => p,
    };
    let ssl_mode = match ssl_mode_of(&cfg.credentials) {
        Some(m) => m,
        None => SslMode::Disable,
    };
    let ca = cfg.credentials.get_non_empty("ca_cert");
    let tls = if matches!(ssl_mode, SslMode::Prefer) || matches!(ssl_mode, SslMode::Require) {
        if ca.is_some() && pair.is_some() {
            TlsChoice::PeerCaClient
        } else if ca.is_some() {
            TlsChoice::PeerCa
        } else {
            TlsChoice::NoVerifyTls
        }
    } else {
        TlsChoice::NoTls
    };
    let user = cfg.credentials.get("user");
    let password = cfg.credentials.get("password");
    let dbname = cfg.credentials.get("db_name");
    match cfg.mode {
        Mode::Ssh => Ok(
            PsqlPlan {
                user,
                password,
                dbname,
                host: Some(String::from_str("127.0.0.1")),
                port: Some(ephemeral_port),
                connect_timeout_secs: 15,
                ssl_mode,
                tls,
                ca_cert: ca,
                client_pair: pair,
                tunnel: Some(tunnel_request(&cfg.credentials, ephemeral_port, parsed_port)),
            },
        ),
        _ => {
            let port: Option<u16> = match cfg.credentials.get("port") {
                None => None,
                Some(p) => parse_u16(p.as_str()),
            };
            Ok(
                PsqlPlan {
                    user,
                    password,
                    dbname,
                    host: cfg.credentials.get("host"),
                    port,
                    connect_timeout_secs: 15,
                    ssl_mode,
                    tls,
                    ca_cert: ca,
                    client_pair: pair,
                    tunnel: None,
                },
            )
        },
    }
}

// ---------------------------------------------------------------------------
// SQLite plans, and the dispatch
// ---------------------------------------------------------------------------

/// Everything the SQLite pool needs: the database file's path.
pub struct SqlitePlan {
    pub path: String,
}

/// One resolved connection plan, tagged by dialect.
pub enum ConnectionPlan {
    Mysql(MysqlPlan),
    Postgresql(PsqlPlan),
    Sqlite(SqlitePlan),
}

/// The schema a successful build binds the connection to: the configured
/// database for MySQL, `public` for PostgreSQL, the file path for SQLite.
pub open spec fn spec_planned_schema(dialect: Dialect, creds: Map<Seq<char>, Seq<char>>) -> Seq<
    char,
> {
    match dialect {
        Dialect::Mysql | Dialect::MariaDB => spec_cred(creds, "db_name"@),
        Dialect::Postgresql => "public"@,
        Dialect::Sqlite => spec_cred(creds, "path"@),
    }
}

/// Resolves a configuration into the plan its dialect's pool builder needs.
/// SQLite accepts only the file transport; the server dialects refuse it.
pub fn resolve_connection_plan(cfg: &ConnectionConfig, ephemeral_port: u16) -> (r: Result<
    ConnectionPlan,
    Error,
>)
    ensures
        (match cfg.dialect {
            Dialect::Mysql | Dialect::MariaDB => match build_plan_spec_mysql(cfg, ephemeral_port) {
                Ok(()) => r matches Ok(pl) && pl matches ConnectionPlan::Mysql(p)
                    && spec_mysql_plan_ok(p, cfg.credentials@, cfg.mode, ephemeral_port),
                Err(e) => r == Result::<ConnectionPlan, Error>::Err(e),
            },
            Dialect::Postgresql => match build_plan_spec_psql(cfg, ephemeral_port) {
                Ok(()) => r matches Ok(pl) && pl matches ConnectionPlan::Postgresql(p)
                    && spec_psql_plan_ok(p, cfg.credentials@, cfg.mode, ephemeral_port),
                Err(e) => r == Result::<ConnectionPlan, Error>::Err(e),
            },
            Dialect::Sqlite => {
                if cfg.mode != Mode::File {
                    r == Result::<ConnectionPlan, Error>::Err(Error::FileModeRequired)
                } else {
                    r matches Ok(pl) && pl matches ConnectionPlan::Sqlite(p) && p.path@
                        == spec_cred(cfg.credentials@, "path"@)
                }
            },
        }),
{
    match cfg.dialect {
        Dialect::Mysql | Dialect::MariaDB => match build_mysql_plan(cfg, ephemeral_port) {
            Ok(p) => Ok(ConnectionPlan::Mysql(p)),
            Err(e) => Err(e),
        },
        Dialect::Postgresql => match build_psql_plan(cfg, ephemeral_port) {
            Ok(p) => Ok(ConnectionPlan::Postgresql(p)),
            Err(e) => Err(e),
        },
        Dialect::Sqlite => {
            if !matches!(cfg.mode, Mode::File) {
                return Err(Error::FileModeRequired);
            }
            Ok(ConnectionPlan::Sqlite(SqlitePlan { path: cred_or_empty(&cfg.credentials, "path") }))
        },
    }
}

/// Which error, if any, resolving a MySQL configuration must produce.
pub open spec fn build_plan_spec_mysql(cfg: &ConnectionConfig, ephemeral_port: u16) -> Result<
    (),
    Error,
> {
    if cfg.mode == Mode::File {
        Err(Error::FileModeUnsupported(cfg.dialect))
    } else if spec_cert_mismatch(cfg.credentials@) {
        Err(Error::CertPairMismatch)
    } else if (cfg.mode == Mode::Host || cfg.mode == Mode::Ssh) && spec_port_of(
        cfg.credentials@,
        3306,
    ) is None {
        Err(Error::InvalidPort)
    } else {
        Ok(())
    }
}

/// Which error, if any, resolving a PostgreSQL configuration must produce.
pub open spec fn build_plan_spec_psql(cfg: &ConnectionConfig, ephemeral_port: u16) -> Result<
    (),
    Error,
> {
    if cfg.mode == Mode::File {
        Err(Error::FileModeUnsupported(cfg.dialect))
    } else if spec_port_of(cfg.credentials@, 5432) is None {
        Err(Error::InvalidPort)
    } else if spec_cert_mismatch(cfg.credentials@) {
        Err(Error::CertPairMismatch)
    } else {
        Ok(())
    }
}

/// The verified snapshot a successful build registers: the configuration
/// and the schema the plan binds it to.
pub fn initiated_snapshot(cfg: ConnectionConfig) -> (r: InitiatedConnection)
    ensures
        r.config == cfg,
        r.schema@ == spec_planned_schema(cfg.dialect, cfg.credentials@),
{
    let schema: String = match cfg.dialect {
        Dialect::Mysql | Dialect::MariaDB => cred_or_empty(&cfg.credentials, "db_name"),
        Dialect::Postgresql => String::from_str("public"),
        Dialect::Sqlite => cred_or_empty(&cfg.credentials, "path"),
    };
    InitiatedConnection { config: cfg, schema }
}

} // verus!
