use vstd::prelude::*;
use crate::catalog::{lemma_concat_ends_with, spec_ends_with};

verus! {

// The introspection SQL issued against PostgreSQL's `information_schema`
// and `pg_indexes`, built exactly as specified; the runtime layer runs each
// query on the pool and hands the rows back.

pub open spec fn spec_columns_base(schema: Seq<char>) -> Seq<char> {
    "SELECT
        COLUMN_NAME,
        DATA_TYPE,
        CASE
            WHEN character_maximum_length is not null  and udt_name != 'text'
              THEN CONCAT(udt_name, concat('(', concat(character_maximum_length::varchar(255), ')')))
            WHEN numeric_precision is not null
                    THEN CONCAT(udt_name, concat('(', concat(numeric_precision::varchar(255),',',numeric_scale::varchar(255), ')')))
            WHEN datetime_precision is not null AND udt_name != 'date' THEN
              CONCAT(udt_name, concat('(', concat(datetime_precision::varchar(255), ')')))
            ELSE udt_name
        END as COLUMN_TYPE,
        IS_NULLABLE,
        COLUMN_DEFAULT,
        CHARACTER_MAXIMUM_LENGTH,
        CHARACTER_OCTET_LENGTH,
        TABLE_SCHEMA,
        ORDINAL_POSITION,
        TABLE_NAME
        FROM INFORMATION_SCHEMA.COLUMNS WHERE TABLE_SCHEMA = '"@ + schema + "'"@
}

pub open spec fn spec_columns_query(schema: Seq<char>, table: Option<Seq<char>>) -> Seq<char> {
    match table {
        Some(t) => spec_columns_base(schema) + " AND TABLE_NAME = '"@ + t + "'"@
            + " ORDER BY ORDINAL_POSITION;"@,
        None => spec_columns_base(schema) + " ORDER BY ORDINAL_POSITION;"@,
    }
}

/// The column listing for one table, or for the whole schema.
pub fn columns_query(schema: &str, table: Option<&str>) -> (r: String)
    ensures
        r@ == spec_columns_query(
            schema@,
            match table {
                Some(t) => Some(t@),
                None => None,
            },
        ),
{
    let mut s = String::from_str(
        "SELECT
        COLUMN_NAME,
        DATA_TYPE,
        CASE
            WHEN character_maximum_length is not null  and udt_name != 'text'
              THEN CONCAT(udt_name, concat('(', concat(character_maximum_length::varchar(255), ')')))
            WHEN numeric_precision is not null
                    THEN CONCAT(udt_name, concat('(', concat(numeric_precision::varchar(255),',',numeric_scale::varchar(255), ')')))
            WHEN datetime_precision is not null AND udt_name != 'date' THEN
              CONCAT(udt_name, concat('(', concat(datetime_precision::varchar(255), ')')))
            ELSE udt_name
        END as COLUMN_TYPE,
        IS_NULLABLE,
        COLUMN_DEFAULT,
        CHARACTER_MAXIMUM_LENGTH,
        CHARACTER_OCTET_LENGTH,
        TABLE_SCHEMA,
        ORDINAL_POSITION,
        TABLE_NAME
        FROM INFORMATION_SCHEMA.COLUMNS WHERE TABLE_SCHEMA = '",
    );
    s.append(schema);
    s.append("'");
    match table {
        Some(t) => {
            s.append(" AND TABLE_NAME = '");
            s.append(t);
            s.append("'");
            s.append(" ORDER BY ORDINAL_POSITION;");
        },
        None => {
            s.append(" ORDER BY ORDINAL_POSITION;");
        },
    }
    s
}

/// Law: every column listing is ordered strictly by ordinal position — the
/// emitted query always ends with the ordering clause.
pub proof fn lemma_columns_query_ordered(schema: Seq<char>, table: Option<Seq<char>>)
    ensures
        spec_ends_with(spec_columns_query(schema, table), " ORDER BY ORDINAL_POSITION;"@),
{
    match table {
        Some(t) => {
            lemma_concat_ends_with(
                spec_columns_base(schema) + " AND TABLE_NAME = '"@ + t + "'"@,
                " ORDER BY ORDINAL_POSITION;"@,
            );
        },
        None => {
            lemma_concat_ends_with(spec_columns_base(schema), " ORDER BY ORDINAL_POSITION;"@);
        },
    }
}

pub open spec fn spec_primary_key_query(schema: Seq<char>, table: Seq<char>) -> Seq<char> {
    "SELECT c.column_name, c.table_name, tc.constraint_name, c.table_schema, c.ordinal_position
        FROM information_schema.table_constraints tc
        JOIN information_schema.constraint_column_usage AS ccu USING (constraint_schema, constraint_name)
        JOIN information_schema.columns AS c ON c.table_schema = tc.constraint_schema
          AND tc.table_name = c.table_name AND ccu.column_name = c.column_name
        WHERE constraint_type = 'PRIMARY KEY' and c.table_schema = '"@ + schema + "'"@
        + " AND c.table_name = '"@ + table + "'"@
}

/// The primary-key listing for one table.
pub fn primary_key_query(schema: &str, table: &str) -> (r: String)
    ensures
        r@ == spec_primary_key_query(schema@, table@),
{
    let mut s = String::from_str(
        "SELECT c.column_name, c.table_name, tc.constraint_name, c.table_schema, c.ordinal_position
        FROM information_schema.table_constraints tc
        JOIN information_schema.constraint_column_usage AS ccu USING (constraint_schema, constraint_name)
        JOIN information_schema.columns AS c ON c.table_schema = tc.constraint_schema
          AND tc.table_name = c.table_name AND ccu.column_name = c.column_name
        WHERE constraint_type = 'PRIMARY KEY' and c.table_schema = '",
    );
    s.append(schema);
    s.append("'");
    s.append(" AND c.table_name = '");
    s.append(table);
    s.append("'");
    s
}

pub open spec fn spec_foreign_keys_query(schema: Seq<char>, table: Seq<char>) -> Seq<char> {
    "SELECT
          tc.constraint_name,
          kcu.column_name as column_name,
          ccu.table_name AS referenced_table_name,
          ccu.column_name AS referenced_column_name,
          rc.update_rule as update_rule,
          rc.delete_rule as delete_rule
        FROM
          information_schema.table_constraints tc
          JOIN information_schema.key_column_usage kcu ON tc.constraint_name = kcu.constraint_name
          AND tc.table_schema = kcu.table_schema
          JOIN information_schema.constraint_column_usage ccu ON ccu.constraint_name = tc.constraint_name
          AND ccu.table_schema = tc.table_schema
          JOIN information_schema.referential_constraints rc on tc.constraint_name = rc.constraint_name
          AND tc.table_schema = rc.constraint_schema
        WHERE
          tc.constraint_type = 'FOREIGN KEY'
          AND tc.table_schema = '"@ + schema + "'"@ + " AND tc.table_name = '"@ + table + "'"@
}

/// The foreign-key listing for one table.
pub fn foreign_keys_query(schema: &str, table: &str) -> (r: String)
    ensures
        r@ == spec_foreign_keys_query(schema@, table@),
{
    let mut s = String::from_str(
        "SELECT
          tc.constraint_name,
          kcu.column_name as column_name,
          ccu.table_name AS referenced_table_name,
          ccu.column_name AS referenced_column_name,
          rc.update_rule as update_rule,
          rc.delete_rule as delete_rule
        FROM
          information_schema.table_constraints tc
          JOIN information_schema.key_column_usage kcu ON tc.constraint_name = kcu.constraint_name
          AND tc.table_schema = kcu.table_schema
          JOIN information_schema.constraint_column_usage ccu ON ccu.constraint_name = tc.constraint_name
          AND ccu.table_schema = tc.table_schema
          JOIN information_schema.referential_constraints rc on tc.constraint_name = rc.constraint_name
          AND tc.table_schema = rc.constraint_schema
        WHERE
          tc.constraint_type = 'FOREIGN KEY'
          AND tc.table_schema = '",
    );
    s.append(schema);
    s.append("'");
    s.append(" AND tc.table_name = '");
    s.append(table);
    s.append("'");
    s
}

pub open spec fn spec_functions_query(schema: Seq<char>) -> Seq<char> {
    "SELECT routine_name, routine_definition
        FROM information_schema.routines
        WHERE routine_type = 'FUNCTION' AND routine_schema = '"@ + schema + "';"@
}

/// The function listing for the schema.
pub fn functions_query(schema: &str) -> (r: String)
    ensures
        r@ == spec_functions_query(schema@),
{
    let mut s = String::from_str(
        "SELECT routine_name, routine_definition
        FROM information_schema.routines
        WHERE routine_type = 'FUNCTION' AND routine_schema = '",
    );
    s.append(schema);
    s.append("';");
    s
}

pub open spec fn spec_procedures_query(schema: Seq<char>) -> Seq<char> {
    "SELECT routine_name, routine_definition FROM information_schema.routines WHERE routine_type = 'PROCEDURE' AND routine_schema = '"@
        + schema + "';"@
}

/// The procedure listing for the schema.
pub fn procedures_query(schema: &str) -> (r: String)
    ensures
        r@ == spec_procedures_query(schema@),
{
    let mut s = String::from_str(
        "SELECT routine_name, routine_definition FROM information_schema.routines WHERE routine_type = 'PROCEDURE' AND routine_schema = '",
    );
    s.append(schema);
    s.append("';");
    s
}

pub open spec fn spec_indices_query(schema: Seq<char>, table: Seq<char>) -> Seq<char> {
    "SELECT indexname, indexdef FROM pg_indexes WHERE schemaname = '"@ + schema + "'"@
        + " and tablename = '"@ + table + "';"@
}

/// The index listing for one table.
pub fn indices_query(schema: &str, table: &str) -> (r: String)
    ensures
        r@ == spec_indices_query(schema@, table@),
{
    let mut s = String::from_str("SELECT indexname, indexdef FROM pg_indexes WHERE schemaname = '");
    s.append(schema);
    s.append("'");
    s.append(" and tablename = '");
    s.append(table);
    s.append("';");
    s
}

pub open spec fn spec_triggers_query(schema: Seq<char>, table: Option<Seq<char>>) -> Seq<char> {
    let base = "SELECT trigger_name, event_manipulation, action_timing,
            event_object_table, action_statement, action_condition, created
            FROM INFORMATION_SCHEMA.TRIGGERS WHERE EVENT_OBJECT_SCHEMA = '"@ + schema + "'"@;
    match table {
        Some(t) => base + " AND EVENT_OBJECT_TABLE = '"@ + t + "';"@,
        None => base + ";"@,
    }
}

/// The trigger listing for one table, or for the whole schema.
pub fn triggers_query(schema: &str, table: Option<&str>) -> (r: String)
    ensures
        r@ == spec_triggers_query(
            schema@,
            match table {
                Some(t) => Some(t@),
                None => None,
            },
        ),
{
    let mut s = String::from_str(
        "SELECT trigger_name, event_manipulation, action_timing,
            event_object_table, action_statement, action_condition, created
            FROM INFORMATION_SCHEMA.TRIGGERS WHERE EVENT_OBJECT_SCHEMA = '",
    );
    s.append(schema);
    s.append("'");
    match table {
        Some(t) => {
            s.append(" AND EVENT_OBJECT_TABLE = '");
            s.append(t);
            s.append("';");
        },
        None => {
            s.append(";");
        },
    }
    s
}

/// The schema listing.
pub fn schemas_query() -> (r: String)
    ensures
        r@ == "SELECT schema_name schema FROM information_schema.schemata;"@,
{
    String::from_str("SELECT schema_name schema FROM information_schema.schemata;")
}

pub open spec fn spec_views_query(schema: Seq<char>) -> Seq<char> {
    "SELECT table_name FROM INFORMATION_SCHEMA.views WHERE table_schema = '"@ + schema + "'"@
}

/// The view listing for the schema.
pub fn views_query(schema: &str) -> (r: String)
    ensures
        r@ == spec_views_query(schema@),
{
    let mut s = String::from_str(
        "SELECT table_name FROM INFORMATION_SCHEMA.views WHERE table_schema = '",
    );
    s.append(schema);
    s.append("'");
    s
}

} // verus!
