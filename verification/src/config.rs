use vstd::prelude::*;
use crate::error::Error;
use crate::text::str_eq;

verus! {

// ---------------------------------------------------------------------------
// Dialects and transport modes
// ---------------------------------------------------------------------------

/// The supported database engines.
#[derive(Clone, Copy, Debug, PartialEq, Eq, Structural)]
pub enum Dialect {
    Mysql,
    MariaDB,
    Postgresql,
    Sqlite,
}

impl Dialect {
    /// The display name of the dialect, as persisted and shown.
    pub open spec fn spec_name(&self) -> Seq<char> {
        match self {
            Dialect::Mysql => "Mysql"@,
            Dialect::MariaDB => "MariaDB"@,
            Dialect::Postgresql => "Postgresql"@,
            Dialect::Sqlite => "Sqlite"@,
        }
    }

    pub fn as_str(&self) -> (r: &'static str)
        ensures
            r@ == self.spec_name(),
    {
        match self {
            Dialect::Mysql => "Mysql",
            Dialect::MariaDB => "MariaDB",
            Dialect::Postgresql => "Postgresql",
            Dialect::Sqlite => "Sqlite",
        }
    }

    /// The grammar name handed to the SQL parser; MariaDB shares MySQL's.
    pub open spec fn spec_parser_name(&self) -> Seq<char> {
        match self {
            Dialect::Mysql => "mysql"@,
            Dialect::MariaDB => "mysql"@,
            Dialect::Postgresql => "postgresql"@,
            Dialect::Sqlite => "sqlite"@,
        }
    }

    pub fn parser_name(&self) -> (r: &'static str)
        ensures
            r@ == self.spec_parser_name(),
    {
        match self {
            Dialect::Mysql => "mysql",
            Dialect::MariaDB => "mysql",
            Dialect::Postgresql => "postgresql",
            Dialect::Sqlite => "sqlite",
        }
    }

    /// Reads a persisted dialect name back; the exact inverse of `as_str`.
    pub fn from_name(s: &str) -> (r: Option<Dialect>)
        ensures
            s@ == "Mysql"@ ==> r == Some(Dialect::Mysql),
            s@ == "MariaDB"@ ==> r == Some(Dialect::MariaDB),
            s@ == "Postgresql"@ ==> r == Some(Dialect::Postgresql),
            s@ == "Sqlite"@ ==> r == Some(Dialect::Sqlite),
            s@ != "Mysql"@ && s@ != "MariaDB"@ && s@ != "Postgresql"@ && s@ != "Sqlite"@ ==> r
                is None,
    {
        proof {
            reveal_strlit("Mysql");
            reveal_strlit("MariaDB");
            reveal_strlit("Postgresql");
            reveal_strlit("Sqlite");
            assert("Mysql"@.len() == 5);
            assert("MariaDB"@.len() == 7);
            assert("Postgresql"@.len() == 10);
            assert("Sqlite"@.len() == 6);
        }
        if str_eq(s, "Mysql") {
            Some(Dialect::Mysql)
        } else if str_eq(s, "MariaDB") {
            Some(Dialect::MariaDB)
        } else if str_eq(s, "Postgresql") {
            Some(Dialect::Postgresql)
        } else if str_eq(s, "Sqlite") {
            Some(Dialect::Sqlite)
        } else {
            None
        }
    }
}

/// The transport shape of a connection.
#[derive(Clone, Copy, Debug, PartialEq, Eq, Structural)]
pub enum Mode {
    Host,
    Socket,
    File,
    Ssh,
}

impl Mode {
    pub open spec fn spec_name(&self) -> Seq<char> {
        match self {
            Mode::Host => "Host"@,
            Mode::Socket => "Socket"@,
            Mode::File => "File"@,
            Mode::Ssh => "Ssh"@,
        }
    }

    pub fn as_str(&self) -> (r: &'static str)
        ensures
            r@ == self.spec_name(),
    {
        match self {
            Mode::Host => "Host",
            Mode::Socket => "Socket",
            Mode::File => "File",
            Mode::Ssh => "Ssh",
        }
    }

    /// Reads a persisted mode name back; the exact inverse of `as_str`.
    pub fn from_name(s: &str) -> (r: Option<Mode>)
        ensures
            s@ == "Host"@ ==> r == Some(Mode::Host),
            s@ == "Socket"@ ==> r == Some(Mode::Socket),
            s@ == "File"@ ==> r == Some(Mode::File),
            s@ == "Ssh"@ ==> r == Some(Mode::Ssh),
            s@ != "Host"@ && s@ != "Socket"@ && s@ != "File"@ && s@ != "Ssh"@ ==> r is None,
    {
        proof {
            reveal_strlit("Host");
            reveal_strlit("Socket");
            reveal_strlit("File");
            reveal_strlit("Ssh");
            assert("Host"@.len() == 4);
            assert("Socket"@.len() == 6);
            assert("File"@.len() == 4);
            assert("Ssh"@.len() == 3);
            assert("Host"@[0] == 'H');
            assert("File"@[0] == 'F');
        }
        if str_eq(s, "Host") {
            Some(Mode::Host)
        } else if str_eq(s, "Socket") {
            Some(Mode::Socket)
        } else if str_eq(s, "File") {
            Some(Mode::File)
        } else if str_eq(s, "Ssh") {
            Some(Mode::Ssh)
        } else {
            None
        }
    }
}

// ---------------------------------------------------------------------------
// The credential mapping
// ---------------------------------------------------------------------------

/// The map denoted by a sequence of key/value entries; a later entry for the
/// same key shadows an earlier one.
pub open spec fn entries_map(s: Seq<(String, String)>) -> Map<Seq<char>, Seq<char>>
    decreases s.len(),
{
    if s.len() == 0 {
        Map::empty()
    } else {
        entries_map(s.drop_last()).insert(s.last().0@, s.last().1@)
    }
}

/// A string-to-string credential mapping, viewed as a mathematical map.
pub struct Credentials {
    entries: Vec<(String, String)>,
}

impl View for Credentials {
    type V = Map<Seq<char>, Seq<char>>;

    closed spec fn view(&self) -> Map<Seq<char>, Seq<char>> {
        entries_map(self.entries@)
    }
}

proof fn lemma_entries_map_absent(s: Seq<(String, String)>, k: Seq<char>)
    requires
        forall|j: int| 0 <= j < s.len() ==> (#[trigger] s[j]).0@ != k,
    ensures
        !entries_map(s).contains_key(k),
    decreases s.len(),
{
    if s.len() > 0 {
        assert(forall|j: int|
            0 <= j < s.len() - 1 ==> #[trigger] s.drop_last()[j] == s[j]);
        lemma_entries_map_absent(s.drop_last(), k);
    }
}

proof fn lemma_entries_map_last_val(s: Seq<(String, String)>, i: int, k: Seq<char>)
    requires
        0 <= i < s.len(),
        s[i].0@ == k,
        forall|j: int| i < j < s.len() ==> (#[trigger] s[j]).0@ != k,
    ensures
        entries_map(s).contains_key(k),
        entries_map(s)[k] == s[i].1@,
    decreases s.len(),
{
    if i < s.len() - 1 {
        assert(forall|j: int|
            0 <= j < s.len() - 1 ==> #[trigger] s.drop_last()[j] == s[j]);
        lemma_entries_map_last_val(s.drop_last(), i, k);
        assert(s.last().0@ != k);
    }
}

impl Credentials {
    /// An empty mapping.
    pub fn new() -> (r: Credentials)
        ensures
            r@ == Map::<Seq<char>, Seq<char>>::empty(),
    {
        Credentials { entries: Vec::new() }
    }

    /// Installs `value` under `key`, replacing any earlier value.
    pub fn insert(&mut self, key: String, value: String)
        ensures
            final(self)@ == old(self)@.insert(key@, value@),
    {
        let ghost oldseq = self.entries@;
        self.entries.push((key, value));
        proof {
            assert(self.entries@.drop_last() =~= oldseq);
        }
    }

    /// Looks a key up.
    pub fn get(&self, key: &str) -> (r: Option<String>)
        ensures
            match r {
                Some(v) => self@.contains_key(key@) && v@ == self@[key@],
                None => !self@.contains_key(key@),
            },
    {
        let n = self.entries.len();
        let mut i: usize = n;
        while i > 0
            invariant
                n == self.entries@.len(),
                i <= n,
                forall|j: int|
                    i <= j < n ==> (#[trigger] self.entries@[j]).0@ != key@,
            decreases i,
        {
            i = i - 1;
            if str_eq(self.entries[i].0.as_str(), key) {
                proof {
                    lemma_entries_map_last_val(self.entries@, i as int, key@);
                }
                return Some(self.entries[i].1.clone());
            }
        }
        proof {
            lemma_entries_map_absent(self.entries@, key@);
        }
        None
    }

    /// Whether a key is present with a non-empty value; absent keys count as
    /// empty, the way the builders treat an unset certificate path.
    pub fn get_non_empty(&self, key: &str) -> (r: Option<String>)
        ensures
            match r {
                Some(v) => self@.contains_key(key@) && v@ == self@[key@] && v@.len() > 0,
                None => !self@.contains_key(key@) || self@[key@].len() == 0,
            },
    {
        match self.get(key) {
            Some(v) => {
                if v.as_str().unicode_len() > 0 {
                    Some(v)
                } else {
                    None
                }
            },
            None => None,
        }
    }

    /// The raw key/value pairs, for persistence.
    pub fn pairs(&self) -> (r: &Vec<(String, String)>)
        ensures
            entries_map(r@) == self@,
    {
        &self.entries
    }

    /// Drops every entry whose key is not on the dialect's allow-list.
    pub fn retain_allowed(&mut self, dialect: Dialect)
        ensures
            final(self)@ == old(self)@.restrict(spec_allowed_keys(dialect)),
    {
        let ghost s = self.entries@;
        let ghost al = spec_allowed_keys(dialect);
        let n = self.entries.len();
        let mut kept: Vec<(String, String)> = Vec::new();
        proof {
            assert(s.take(0) =~= Seq::<(String, String)>::empty());
            assert(entries_map(kept@) =~= entries_map(s.take(0)).restrict(al));
        }
        for i in 0..n
            invariant
                n == s.len(),
                self.entries@ == s,
                al == spec_allowed_keys(dialect),
                entries_map(kept@) == entries_map(s.take(i as int)).restrict(al),
        {
            let e_allowed = key_allowed(dialect, self.entries[i].0.as_str());
            let ghost prev = kept@;
            if e_allowed {
                let k = self.entries[i].0.clone();
                let v = self.entries[i].1.clone();
                kept.push((k, v));
            }
            proof {
                assert(s.take(i + 1).drop_last() =~= s.take(i as int));
                assert(s.take(i + 1).last() == s[i as int]);
                let m = entries_map(s.take(i as int));
                let e = s[i as int];
                if al.contains(e.0@) {
                    assert(kept@.drop_last() =~= prev);
                    assert(m.insert(e.0@, e.1@).restrict(al) =~= m.restrict(al).insert(
                        e.0@,
                        e.1@,
                    ));
                } else {
                    assert(m.insert(e.0@, e.1@).restrict(al) =~= m.restrict(al));
                }
            }
        }
        proof {
            assert(s.take(n as int) =~= s);
        }
        self.entries = kept;
    }
}

// ---------------------------------------------------------------------------
// Dialect-specific credential allow-lists
// ---------------------------------------------------------------------------

/// The credential keys a MySQL or MariaDB connection may carry.
pub open spec fn spec_mysql_allowed() -> Set<Seq<char>> {
    set![
        "pool_min"@,
        "pool_max"@,
        "user"@,
        "password"@,
        "host"@,
        "port"@,
        "socket"@,
        "db_name"@,
        "prefer_socket"@,
        "tcp_keepalive_time_ms"@,
        "tcp_keepalive_probe_interval_secs"@,
        "tcp_keepalive_probe_count"@,
        "tcp_user_timeout_ms"@,
        "compress"@,
        "tcp_connect_timeout_ms"@,
        "stmt_cache_size"@,
        "secure_auth"@,
        "ssl_mode"@,
        "ca_cert"@,
        "client_cert"@,
        "client_key"@,
        "ssh_host"@,
        "ssh_port"@,
        "ssh_user"@,
        "ssh_key"@,
    ]
}

/// The credential keys a PostgreSQL connection may carry.
pub open spec fn spec_psql_allowed() -> Set<Seq<char>> {
    set![
        "user"@,
        "password"@,
        "db_name"@,
        "options"@,
        "application_name"@,
        "sslmode"@,
        "host"@,
        "port"@,
        "connect_timeout"@,
        "keepalives"@,
        "keepalives_idle"@,
        "target_session_attrs"@,
        "transaction_read_write"@,
        "ssl_mode"@,
        "ca_cert"@,
        "client_cert"@,
        "client_key"@,
        "ssh_host"@,
        "ssh_port"@,
        "ssh_user"@,
        "ssh_key"@,
    ]
}

/// The credential keys a SQLite connection may carry.
pub open spec fn spec_sqlite_allowed() -> Set<Seq<char>> {
    set!["path"@]
}

pub open spec fn spec_allowed_keys(dialect: Dialect) -> Set<Seq<char>> {
    match dialect {
        Dialect::Mysql => spec_mysql_allowed(),
        Dialect::MariaDB => spec_mysql_allowed(),
        Dialect::Postgresql => spec_psql_allowed(),
        Dialect::Sqlite => spec_sqlite_allowed(),
    }
}

fn key_allowed_mysql(k: &str) -> (r: bool)
    ensures
        r == spec_mysql_allowed().contains(k@),
{
    str_eq(k, "pool_min") || str_eq(k, "pool_max") || str_eq(k, "user") || str_eq(k, "password")
        || str_eq(k, "host") || str_eq(k, "port") || str_eq(k, "socket") || str_eq(k, "db_name")
        || str_eq(k, "prefer_socket") || str_eq(k, "tcp_keepalive_time_ms") || str_eq(
        k,
        "tcp_keepalive_probe_interval_secs",
    ) || str_eq(k, "tcp_keepalive_probe_count") || str_eq(k, "tcp_user_timeout_ms") || str_eq(
        k,
        "compress",
    ) || str_eq(k, "tcp_connect_timeout_ms") || str_eq(k, "stmt_cache_size") || str_eq(
        k,
        "secure_auth",
    ) || str_eq(k, "ssl_mode") || str_eq(k, "ca_cert") || str_eq(k, "client_cert") || str_eq(
        k,
        "client_key",
    ) || str_eq(k, "ssh_host") || str_eq(k, "ssh_port") || str_eq(k, "ssh_user") || str_eq(
        k,
        "ssh_key",
    )
}

fn key_allowed_psql(k: &str) -> (r: bool)
    ensures
        r == spec_psql_allowed().contains(k@),
{
    str_eq(k, "user") || str_eq(k, "password") || str_eq(k, "db_name") || str_eq(k, "options")
        || str_eq(k, "application_name") || str_eq(k, "sslmode") || str_eq(k, "host") || str_eq(
        k,
        "port",
    ) || str_eq(k, "connect_timeout") || str_eq(k, "keepalives") || str_eq(k, "keepalives_idle")
        || str_eq(k, "target_session_attrs") || str_eq(k, "transaction_read_write") || str_eq(
        k,
        "ssl_mode",
    ) || str_eq(k, "ca_cert") || str_eq(k, "client_cert") || str_eq(k, "client_key") || str_eq(
        k,
        "ssh_host",
    ) || str_eq(k, "ssh_port") || str_eq(k, "ssh_user") || str_eq(k, "ssh_key")
}

fn key_allowed(dialect: Dialect, k: &str) -> (r: bool)
    ensures
        r == spec_allowed_keys(dialect).contains(k@),
{
    match dialect {
        Dialect::Mysql => key_allowed_mysql(k),
        Dialect::MariaDB => key_allowed_mysql(k),
        Dialect::Postgresql => key_allowed_psql(k),
        Dialect::Sqlite => str_eq(k, "path"),
    }
}

// ---------------------------------------------------------------------------
// ConnectionConfig
// ---------------------------------------------------------------------------

/// The schema a fresh connection starts in, derived from the filtered
/// credential map.
pub open spec fn spec_initial_schema(dialect: Dialect, creds: Map<Seq<char>, Seq<char>>) -> Seq<
    char,
> {
    match dialect {
        Dialect::Mysql | Dialect::MariaDB => if creds.contains_key("db_name"@) {
            creds["db_name"@]
        } else {
            Seq::empty()
        },
        Dialect::Postgresql => "public"@,
        Dialect::Sqlite => if creds.contains_key("path"@) {
            creds["path"@]
        } else {
            Seq::empty()
        },
    }
}

/// Relies on uuid::Uuid::new_v4 and the Display of uuid::Uuid: a fresh
/// random version-4 UUID rendered in the 36-character hyphenated form.
/// The value is random; nothing but its length is assumed.
#[verifier::external_body]
fn new_uuid_string() -> (r: String)
    ensures
        r@.len() == 36,
{
    uuid::Uuid::new_v4().to_string()
}

/// The stored description of one connection: identity, engine, transport,
/// credentials (filtered to the dialect's allow-list), display name and
/// color tag, and the schema the connection starts in.
pub struct ConnectionConfig {
    pub id: String,
    pub dialect: Dialect,
    pub mode: Mode,
    pub credentials: Credentials,
    pub schema: String,
    pub name: String,
    pub color: String,
}

impl ConnectionConfig {
    /// Builds a configuration, filtering the credential map down to the
    /// dialect's allow-list. The display name and color must be non-empty.
    pub fn new(
        dialect: Dialect,
        mode: Mode,
        credentials: Credentials,
        name: &str,
        color: &str,
    ) -> (r: Result<ConnectionConfig, Error>)
        ensures
            name@.len() == 0 ==> r == Result::<ConnectionConfig, Error>::Err(Error::EmptyName),
            name@.len() > 0 && color@.len() == 0 ==> r == Result::<ConnectionConfig, Error>::Err(
                Error::EmptyColor,
            ),
            name@.len() > 0 && color@.len() > 0 ==> (r matches Ok(cfg) && cfg.dialect == dialect
                && cfg.mode == mode && cfg.name@ == name@ && cfg.color@ == color@
                && cfg.credentials@ == credentials@.restrict(spec_allowed_keys(dialect))
                && cfg.schema@ == spec_initial_schema(
                dialect,
                credentials@.restrict(spec_allowed_keys(dialect)),
            ) && cfg.id@.len() == 36),
    {
        if name.unicode_len() == 0 {
            return Err(Error::EmptyName);
        }
        if color.unicode_len() == 0 {
            return Err(Error::EmptyColor);
        }
        let mut credentials = credentials;
        credentials.retain_allowed(dialect);
        let schema: String = match dialect {
            Dialect::Mysql | Dialect::MariaDB => match credentials.get("db_name") {
                Some(s) => s,
                None => String::new(),
            },
            Dialect::Postgresql => String::from_str("public"),
            Dialect::Sqlite => match credentials.get("path") {
                Some(s) => s,
                None => String::new(),
            },
        };
        Ok(
            ConnectionConfig {
                id: new_uuid_string(),
                dialect,
                mode,
                credentials,
                schema,
                name: String::from_str(name),
                color: String::from_str(color),
            },
        )
    }
}

} // verus!
