use vstd::prelude::*;
use crate::catalog::{lemma_concat_ends_with, spec_ends_with};

verus! {

// The introspection SQL issued against MySQL's and MariaDB's
// `information_schema`, built exactly as specified; the runtime layer runs
// each query on the pool and hands the rows back.

pub open spec fn spec_columns_query(schema: Seq<char>, table: Option<Seq<char>>) -> Seq<char> {
    let base = "SELECT
        COLUMN_NAME,
        COLUMN_TYPE,
        COLUMN_KEY,
        DATA_TYPE,
        IS_NULLABLE,
        COLUMN_DEFAULT,
        CHARACTER_MAXIMUM_LENGTH,
        ORDINAL_POSITION,
        CHARACTER_OCTET_LENGTH,
        CHARACTER_SET_NAME,
        COLLATION_NAME,
        COLUMN_COMMENT,
        TABLE_SCHEMA,
        TABLE_NAME
        FROM INFORMATION_SCHEMA.COLUMNS WHERE TABLE_SCHEMA = '"@ + schema + "'"@;
    match table {
        Some(t) => base + " AND TABLE_NAME = '"@ + t + "'"@ + " ORDER BY ORDINAL_POSITION;"@,
        None => base + " ORDER BY ORDINAL_POSITION;"@,
    }
}

/// The column listing for one table, or for the whole schema.
pub fn columns_query(schema: &str, table: Option<&str>) -> (r: String)
    ensures
        r@ == spec_columns_query(
            schema@,
            match table {
                Some(t) => Some(t@),
                None => None,
            },
        ),
{
    let mut s = String::from_str(
        "SELECT
        COLUMN_NAME,
        COLUMN_TYPE,
        COLUMN_KEY,
        DATA_TYPE,
        IS_NULLABLE,
        COLUMN_DEFAULT,
        CHARACTER_MAXIMUM_LENGTH,
        ORDINAL_POSITION,
        CHARACTER_OCTET_LENGTH,
        CHARACTER_SET_NAME,
        COLLATION_NAME,
        COLUMN_COMMENT,
        TABLE_SCHEMA,
        TABLE_NAME
        FROM INFORMATION_SCHEMA.COLUMNS WHERE TABLE_SCHEMA = '",
    );
    s.append(schema);
    s.append("'");
    match table {
        Some(t) => {
            s.append(" AND TABLE_NAME = '");
            s.append(t);
            s.append("'");
            s.append(" ORDER BY ORDINAL_POSITION;");
        },
        None => {
            s.append(" ORDER BY ORDINAL_POSITION;");
        },
    }
    s
}

/// Law: every column listing is ordered strictly by ordinal position — the
/// emitted query always ends with the ordering clause.
pub proof fn lemma_columns_query_ordered(schema: Seq<char>, table: Option<Seq<char>>)
    ensures
        spec_ends_with(spec_columns_query(schema, table), " ORDER BY ORDINAL_POSITION;"@),
{
    match table {
        Some(t) => {
            lemma_concat_ends_with(
                "SELECT
        COLUMN_NAME,
        COLUMN_TYPE,
        COLUMN_KEY,
        DATA_TYPE,
        IS_NULLABLE,
        COLUMN_DEFAULT,
        CHARACTER_MAXIMUM_LENGTH,
        ORDINAL_POSITION,
        CHARACTER_OCTET_LENGTH,
        CHARACTER_SET_NAME,
        COLLATION_NAME,
        COLUMN_COMMENT,
        TABLE_SCHEMA,
        TABLE_NAME
        FROM INFORMATION_SCHEMA.COLUMNS WHERE TABLE_SCHEMA = '"@ + schema + "'"@
                    + " AND TABLE_NAME = '"@ + t + "'"@,
                " ORDER BY ORDINAL_POSITION;"@,
            );
        },
        None => {
            lemma_concat_ends_with(
                "SELECT
        COLUMN_NAME,
        COLUMN_TYPE,
        COLUMN_KEY,
        DATA_TYPE,
        IS_NULLABLE,
        COLUMN_DEFAULT,
        CHARACTER_MAXIMUM_LENGTH,
        ORDINAL_POSITION,
        CHARACTER_OCTET_LENGTH,
        CHARACTER_SET_NAME,
        COLLATION_NAME,
        COLUMN_COMMENT,
        TABLE_SCHEMA,
        TABLE_NAME
        FROM INFORMATION_SCHEMA.COLUMNS WHERE TABLE_SCHEMA = '"@ + schema + "'"@,
                " ORDER BY ORDINAL_POSITION;"@,
            );
        },
    }
}

pub open spec fn spec_primary_key_query(schema: Seq<char>, table: Seq<char>) -> Seq<char> {
    "SELECT TABLE_SCHEMA, TABLE_NAME, COLUMN_NAME, ORDINAL_POSITION,
                         CONSTRAINT_NAME, REFERENCED_COLUMN_NAME, REFERENCED_TABLE_NAME FROM
                         INFORMATION_SCHEMA.KEY_COLUMN_USAGE WHERE CONSTRAINT_NAME = 'PRIMARY' AND TABLE_SCHEMA = '"@
        + schema + "'"@ + " AND TABLE_NAME = '"@ + table + "'"@
}

/// The primary-key listing for one table.
pub fn primary_key_query(schema: &str, table: &str) -> (r: String)
    ensures
        r@ == spec_primary_key_query(schema@, table@),
{
    let mut s = String::from_str(
        "SELECT TABLE_SCHEMA, TABLE_NAME, COLUMN_NAME, ORDINAL_POSITION,
                         CONSTRAINT_NAME, REFERENCED_COLUMN_NAME, REFERENCED_TABLE_NAME FROM
                         INFORMATION_SCHEMA.KEY_COLUMN_USAGE WHERE CONSTRAINT_NAME = 'PRIMARY' AND TABLE_SCHEMA = '",
    );
    s.append(schema);
    s.append("'");
    s.append(" AND TABLE_NAME = '");
    s.append(table);
    s.append("'");
    s
}

pub open spec fn spec_foreign_keys_query(schema: Seq<char>, table: Seq<char>) -> Seq<char> {
    "SELECT rc.constraint_name, kc.column_name, kc.referenced_table_name, kc.referenced_column_name,  rc.update_rule, rc.delete_rule
            FROM information_schema.referential_constraints rc
            JOIN information_schema.key_column_usage kc ON rc.constraint_schema = kc.table_schema
                 AND rc.table_name = kc.table_name
                 AND rc.constraint_name = kc.constraint_name
            WHERE rc.constraint_schema = '"@
        + schema + "'"@ + " AND rc.TABLE_NAME = '"@ + table + "'"@
}

/// The foreign-key listing for one table.
pub fn foreign_keys_query(schema: &str, table: &str) -> (r: String)
    ensures
        r@ == spec_foreign_keys_query(schema@, table@),
{
    let mut s = String::from_str(
        "SELECT rc.constraint_name, kc.column_name, kc.referenced_table_name, kc.referenced_column_name,  rc.update_rule, rc.delete_rule
            FROM information_schema.referential_constraints rc
            JOIN information_schema.key_column_usage kc ON rc.constraint_schema = kc.table_schema
                 AND rc.table_name = kc.table_name
                 AND rc.constraint_name = kc.constraint_name
            WHERE rc.constraint_schema = '",
    );
    s.append(schema);
    s.append("'");
    s.append(" AND rc.TABLE_NAME = '");
    s.append(table);
    s.append("'");
    s
}

pub open spec fn spec_functions_query(db: Seq<char>) -> Seq<char> {
    "SHOW FUNCTION STATUS WHERE DB = '"@ + db + "';"@
}

/// The stored-function listing for the configured database.
pub fn functions_query(db: &str) -> (r: String)
    ensures
        r@ == spec_functions_query(db@),
{
    let mut s = String::from_str("SHOW FUNCTION STATUS WHERE DB = '");
    s.append(db);
    s.append("';");
    s
}

pub open spec fn spec_procedures_query(schema: Seq<char>) -> Seq<char> {
    "SELECT * FROM information_schema.routines WHERE routine_type = 'PROCEDURE' AND routine_schema = '"@
        + schema + "';"@
}

/// The stored-procedure listing for the schema.
pub fn procedures_query(schema: &str) -> (r: String)
    ensures
        r@ == spec_procedures_query(schema@),
{
    let mut s = String::from_str(
        "SELECT * FROM information_schema.routines WHERE routine_type = 'PROCEDURE' AND routine_schema = '",
    );
    s.append(schema);
    s.append("';");
    s
}

pub open spec fn spec_indices_query(schema: Seq<char>, table: Seq<char>) -> Seq<char> {
    "SELECT INDEX_NAME, COLUMN_NAME, TABLE_SCHEMA, TABLE_NAME FROM
                        information_schema.statistics WHERE table_schema = '"@ + schema + "'"@
        + " and TABLE_NAME = '"@ + table + "';"@
}

/// The index listing for one table.
pub fn indices_query(schema: &str, table: &str) -> (r: String)
    ensures
        r@ == spec_indices_query(schema@, table@),
{
    let mut s = String::from_str(
        "SELECT INDEX_NAME, COLUMN_NAME, TABLE_SCHEMA, TABLE_NAME FROM
                        information_schema.statistics WHERE table_schema = '",
    );
    s.append(schema);
    s.append("'");
    s.append(" and TABLE_NAME = '");
    s.append(table);
    s.append("';");
    s
}

pub open spec fn spec_triggers_query(schema: Seq<char>, table: Option<Seq<char>>) -> Seq<char> {
    let base = "SELECT trigger_name, event_manipulation, action_timing, action_statement, created,
            action_condition FROM INFORMATION_SCHEMA.TRIGGERS WHERE EVENT_OBJECT_SCHEMA = '"@
        + schema + "'"@;
    match table {
        Some(t) => base + " AND EVENT_OBJECT_TABLE = '"@ + t + "';"@,
        None => base + ";"@,
    }
}

/// The trigger listing for one table, or for the whole schema.
pub fn triggers_query(schema: &str, table: Option<&str>) -> (r: String)
    ensures
        r@ == spec_triggers_query(
            schema@,
            match table {
                Some(t) => Some(t@),
                None => None,
            },
        ),
{
    let mut s = String::from_str(
        "SELECT trigger_name, event_manipulation, action_timing, action_statement, created,
            action_condition FROM INFORMATION_SCHEMA.TRIGGERS WHERE EVENT_OBJECT_SCHEMA = '",
    );
    s.append(schema);
    s.append("'");
    match table {
        Some(t) => {
            s.append(" AND EVENT_OBJECT_TABLE = '");
            s.append(t);
            s.append("';");
        },
        None => {
            s.append(";");
        },
    }
    s
}

/// The schema listing.
pub fn schemas_query() -> (r: String)
    ensures
        r@ == "select schema_name 'schema' from information_schema.schemata;"@,
{
    String::from_str("select schema_name 'schema' from information_schema.schemata;")
}

pub open spec fn spec_views_query(schema: Seq<char>) -> Seq<char> {
    "SELECT TABLE_SCHEMA, TABLE_NAME
            FROM information_schema.tables
            WHERE TABLE_TYPE LIKE 'VIEW' and table_schema = '"@ + schema + "';"@
}

/// The view listing for the schema.
pub fn views_query(schema: &str) -> (r: String)
    ensures
        r@ == spec_views_query(schema@),
{
    let mut s = String::from_str(
        "SELECT TABLE_SCHEMA, TABLE_NAME
            FROM information_schema.tables
            WHERE TABLE_TYPE LIKE 'VIEW' and table_schema = '",
    );
    s.append(schema);
    s.append("';");
    s
}

} // verus!
