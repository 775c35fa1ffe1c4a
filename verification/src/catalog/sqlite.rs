use vstd::prelude::*;
use crate::spool::json_quoted;
use crate::spool::json_quote;
use crate::text::{spec_u64_string, u64_to_string};

verus! {

// The introspection SQL issued against `sqlite_master` and the PRAGMA
// table functions; the runtime layer runs each query on the pool and hands
// the rows back. Routines are not a SQLite concept: the capability layer
// answers those with an empty listing, not an error.

pub open spec fn spec_tables_query(table: Option<Seq<char>>) -> Seq<char> {
    let base =
        "SELECT tbl_name FROM sqlite_master WHERE type IN ('table', 'view') AND tbl_name NOT LIKE '%sqlite%'"@;
    match table {
        Some(t) => base + " AND tbl_name = '"@ + t + "';"@,
        None => base + ";"@,
    }
}

/// The listing of user tables and views, optionally narrowed to one name.
pub fn tables_query(table: Option<&str>) -> (r: String)
    ensures
        r@ == spec_tables_query(
            match table {
                Some(t) => Some(t@),
                None => None,
            },
        ),
{
    let mut s = String::from_str(
        "SELECT tbl_name FROM sqlite_master WHERE type IN ('table', 'view') AND tbl_name NOT LIKE '%sqlite%'",
    );
    match table {
        Some(t) => {
            s.append(" AND tbl_name = '");
            s.append(t);
            s.append("';");
        },
        None => {
            s.append(";");
        },
    }
    s
}

pub open spec fn spec_table_info_query(table: Seq<char>) -> Seq<char> {
    "PRAGMA table_info('"@ + table + "');"@
}

/// One table's column facts, in column order.
pub fn table_info_query(table: &str) -> (r: String)
    ensures
        r@ == spec_table_info_query(table@),
{
    let mut s = String::from_str("PRAGMA table_info('");
    s.append(table);
    s.append("');");
    s
}

pub open spec fn spec_foreign_key_list_query(table: Seq<char>) -> Seq<char> {
    "PRAGMA foreign_key_list('"@ + table + "');"@
}

/// One table's foreign keys.
pub fn foreign_key_list_query(table: &str) -> (r: String)
    ensures
        r@ == spec_foreign_key_list_query(table@),
{
    let mut s = String::from_str("PRAGMA foreign_key_list('");
    s.append(table);
    s.append("');");
    s
}

pub open spec fn spec_indices_query(table: Seq<char>) -> Seq<char> {
    "SELECT * FROM sqlite_master WHERE type = 'index'"@ + " and tbl_name = '"@ + table + "';"@
}

/// The index listing for one table.
pub fn indices_query(table: &str) -> (r: String)
    ensures
        r@ == spec_indices_query(table@),
{
    let mut s = String::from_str("SELECT * FROM sqlite_master WHERE type = 'index'");
    s.append(" and tbl_name = '");
    s.append(table);
    s.append("';");
    s
}

pub open spec fn spec_triggers_query(table: Option<Seq<char>>) -> Seq<char> {
    let base = "SELECT * FROM sqlite_master WHERE type='trigger'"@;
    match table {
        Some(t) => base + " AND tbl_name = '"@ + t + "';"@,
        None => base + ";"@,
    }
}

/// The trigger listing for one table, or for the whole database.
pub fn triggers_query(table: Option<&str>) -> (r: String)
    ensures
        r@ == spec_triggers_query(
            match table {
                Some(t) => Some(t@),
                None => None,
            },
        ),
{
    let mut s = String::from_str("SELECT * FROM sqlite_master WHERE type='trigger'");
    match table {
        Some(t) => {
            s.append(" AND tbl_name = '");
            s.append(t);
            s.append("';");
        },
        None => {
            s.append(";");
        },
    }
    s
}

/// The view listing.
pub fn views_query() -> (r: String)
    ensures
        r@ == "SELECT * FROM sqlite_master WHERE type='view'"@,
{
    String::from_str("SELECT * FROM sqlite_master WHERE type='view'")
}

/// The common row-record shape of one column, normalized from a
/// `table_info` PRAGMA row so callers never branch on dialect.
pub open spec fn spec_column_record(
    name: Seq<char>,
    ctype: Seq<char>,
    notnull: bool,
    dflt: Option<Seq<char>>,
    pk: int,
    table: Seq<char>,
) -> Seq<char> {
    "{\"column_default\":"@ + (match dflt {
        Some(d) => json_quoted(d),
        None => "null"@,
    }) + ",\"column_name\":"@ + json_quoted(name) + ",\"column_type\":"@ + json_quoted(ctype)
        + ",\"is_nullable\":"@ + (if notnull {
        "false"@
    } else {
        "true"@
    }) + ",\"primary_key\":"@ + spec_u64_string(pk) + ",\"table_name\":"@ + json_quoted(table)
        + "}"@
}

/// Normalizes one `table_info` row into the common column record.
pub fn column_record(
    name: &str,
    ctype: &str,
    notnull: bool,
    dflt: &Option<String>,
    pk: u64,
    table: &str,
) -> (r: String)
    ensures
        r@ == spec_column_record(
            name@,
            ctype@,
            notnull,
            (match dflt {
                Some(d) => Some(d@),
                None => None,
            }),
            pk as int,
            table@,
        ),
{
    let mut s = String::from_str("{\"column_default\":");
    match dflt {
        Some(d) => {
            let q = json_quote(d.as_str());
            s.append(q.as_str());
        },
        None => {
            s.append("null");
        },
    }
    s.append(",\"column_name\":");
    let q = json_quote(name);
    s.append(q.as_str());
    s.append(",\"column_type\":");
    let q = json_quote(ctype);
    s.append(q.as_str());
    s.append(",\"is_nullable\":");
    if notnull {
        s.append("false");
    } else {
        s.append("true");
    }
    s.append(",\"primary_key\":");
    let n = u64_to_string(pk);
    s.append(n.as_str());
    s.append(",\"table_name\":");
    let q = json_quote(table);
    s.append(q.as_str());
    s.append("}");
    s
}

/// The schema listing a file database reports: the single record naming its
/// path, since a SQLite database has no schemata of its own.
pub open spec fn spec_schema_record(path: Seq<char>) -> Seq<char> {
    "{\"schema\":"@ + json_quoted(path) + "}"@
}

/// The one schema record of a file database.
pub fn schema_record(path: &str) -> (r: String)
    ensures
        r@ == spec_schema_record(path@),
{
    let mut s = String::from_str("{\"schema\":");
    let q = json_quote(path);
    s.append(q.as_str());
    s.append("}");
    s
}

/// The common row-record shape of one foreign key, normalized from a
/// `foreign_key_list` PRAGMA row.
pub open spec fn spec_foreign_key_record(
    id: int,
    table: Seq<char>,
    from: Seq<char>,
    ref_table: Seq<char>,
    to: Seq<char>,
) -> Seq<char> {
    "{\"column_name\":"@ + json_quoted(from) + ",\"constraint_name\":"@ + spec_u64_string(id)
        + ",\"constraint_type\":\"FOREIGN KEY\",\"referenced_column_name\":"@ + json_quoted(to)
        + ",\"referenced_table_name\":"@ + json_quoted(ref_table) + ",\"table_name\":"@
        + json_quoted(table) + "}"@
}

/// Normalizes one `foreign_key_list` row into the common key record.
pub fn foreign_key_record(id: u64, table: &str, from: &str, ref_table: &str, to: &str) -> (r:
    String)
    ensures
        r@ == spec_foreign_key_record(id as int, table@, from@, ref_table@, to@),
{
    let mut s = String::from_str("{\"column_name\":");
    let q = json_quote(from);
    s.append(q.as_str());
    s.append(",\"constraint_name\":");
    let n = u64_to_string(id);
    s.append(n.as_str());
    s.append(",\"constraint_type\":\"FOREIGN KEY\",\"referenced_column_name\":");
    let q = json_quote(to);
    s.append(q.as_str());
    s.append(",\"referenced_table_name\":");
    let q = json_quote(ref_table);
    s.append(q.as_str());
    s.append(",\"table_name\":");
    let q = json_quote(table);
    s.append(q.as_str());
    s.append("}");
    s
}

} // verus!
