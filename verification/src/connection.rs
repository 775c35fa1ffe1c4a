use vstd::prelude::*;
use crate::config::{entries_map, ConnectionConfig, Credentials, Dialect};

verus! {

// ---------------------------------------------------------------------------
// Result sets
// ---------------------------------------------------------------------------

/// Key and column facts of one table, gathered when a table context was
/// supplied; each entry is an already-serialized record.
pub struct TableMetadata {
    pub table: String,
    pub primary_key: Option<Vec<String>>,
    pub foreign_keys: Option<Vec<String>>,
    pub columns: Option<Vec<String>>,
}

impl TableMetadata {
    /// The metadata of no table at all.
    pub fn empty() -> (r: TableMetadata)
        ensures
            r.table@.len() == 0,
            r.primary_key is None,
            r.foreign_keys is None,
            r.columns is None,
    {
        TableMetadata { table: String::new(), primary_key: None, foreign_keys: None, columns: None }
    }
}

/// What executing one statement produced: the rows (each one serialized
/// record), the affected-row count, the start and end instants in epoch
/// milliseconds, and any table metadata.
pub struct ResultSet {
    pub start_time: u64,
    pub end_time: u64,
    pub affected_rows: u64,
    pub rows: Vec<String>,
    pub table: TableMetadata,
}

// ---------------------------------------------------------------------------
// A live connection's verified snapshot
// ---------------------------------------------------------------------------

/// A probed, registered connection: the configuration it was built from and
/// the schema it is bound to. The live pool handle itself is an outside
/// value owned by the runtime layer, keyed by this connection's id.
pub struct InitiatedConnection {
    pub config: ConnectionConfig,
    pub schema: String,
}

impl InitiatedConnection {
    pub fn get_schema(&self) -> (r: String)
        ensures
            r@ == self.schema@,
    {
        self.schema.clone()
    }

    /// Rebinds the connection to a schema, recording it under the dialect's
    /// own credential key — the database name, the search path schema, or
    /// the file path.
    pub fn set_schema(self, schema: String) -> (r: InitiatedConnection)
        ensures
            r.schema@ == schema@,
            r.config.id@ == self.config.id@,
            r.config.dialect == self.config.dialect,
            r.config.mode == self.config.mode,
            r.config.name@ == self.config.name@,
            r.config.color@ == self.config.color@,
            r.config.schema@ == self.config.schema@,
            r.config.credentials@ == self.config.credentials@.insert(
                spec_schema_key(self.config.dialect),
                schema@,
            ),
    {
        let mut this = self;
        this.schema = schema.clone();
        let key = match this.config.dialect {
            Dialect::Mysql | Dialect::MariaDB => String::from_str("db_name"),
            Dialect::Postgresql => String::from_str("schema"),
            Dialect::Sqlite => String::from_str("path"),
        };
        this.config.credentials.insert(key, schema);
        this
    }

    /// A second copy of this connection's snapshot, equal to it in every
    /// observable field, for handing to an independent query task.
    pub fn duplicate(&self) -> (r: InitiatedConnection)
        ensures
            conn_like(r, *self),
    {
        InitiatedConnection {
            config: ConnectionConfig {
                id: self.config.id.clone(),
                dialect: self.config.dialect,
                mode: self.config.mode,
                credentials: self.config.credentials.duplicate(),
                schema: self.config.schema.clone(),
                name: self.config.name.clone(),
                color: self.config.color.clone(),
            },
            schema: self.schema.clone(),
        }
    }
}

/// The credential key under which a dialect stores its current schema.
pub open spec fn spec_schema_key(dialect: Dialect) -> Seq<char> {
    match dialect {
        Dialect::Mysql | Dialect::MariaDB => "db_name"@,
        Dialect::Postgresql => "schema"@,
        Dialect::Sqlite => "path"@,
    }
}

/// Two connection snapshots that agree in every observable field.
pub open spec fn conn_like(a: InitiatedConnection, b: InitiatedConnection) -> bool {
    &&& a.config.id@ == b.config.id@
    &&& a.config.dialect == b.config.dialect
    &&& a.config.mode == b.config.mode
    &&& a.config.credentials@ == b.config.credentials@
    &&& a.config.schema@ == b.config.schema@
    &&& a.config.name@ == b.config.name@
    &&& a.config.color@ == b.config.color@
    &&& a.schema@ == b.schema@
}

impl Credentials {
    /// A second copy of the mapping, denoting the same map.
    pub fn duplicate(&self) -> (r: Credentials)
        ensures
            r@ == self@,
    {
        let pairs = self.pairs();
        let ghost s = pairs@;
        let n = pairs.len();
        let mut out = Credentials::new();
        proof {
            assert(s.take(0) =~= Seq::<(String, String)>::empty());
        }
        for i in 0..n
            invariant
                n == s.len(),
                pairs@ == s,
                out@ == entries_map(s.take(i as int)),
        {
            let k = pairs[i].0.clone();
            let v = pairs[i].1.clone();
            out.insert(k, v);
            proof {
                assert(s.take(i + 1).drop_last() =~= s.take(i as int));
                assert(s.take(i + 1).last() == s[i as int]);
            }
        }
        proof {
            assert(s.take(n as int) =~= s);
        }
        out
    }
}

} // verus!
