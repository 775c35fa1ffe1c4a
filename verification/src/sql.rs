use vstd::prelude::*;
use crate::config::Dialect;
use crate::crypto::{md5_hash, spec_md5_hex};
use crate::error::Error;
use crate::text::{
    contains_ci, first_word_is, spec_contains_ci, spec_first_word, spec_lower_seq, spec_u64_string,
    u64_to_string,
};

verus! {

// ---------------------------------------------------------------------------
// Statement classification
// ---------------------------------------------------------------------------

/// The coarse kind of a SQL statement, driving presentation and the
/// auto-limit policy.
#[derive(Clone, Copy, Debug, PartialEq, Eq, Structural)]
pub enum QueryType {
    Alter,
    Create,
    Delete,
    Drop,
    Insert,
    Other,
    Select,
    Show,
    Truncate,
    Update,
}

impl QueryType {
    pub open spec fn spec_name(&self) -> Seq<char> {
        match self {
            QueryType::Alter => "Alter"@,
            QueryType::Create => "Create"@,
            QueryType::Delete => "Delete"@,
            QueryType::Drop => "Drop"@,
            QueryType::Insert => "Insert"@,
            QueryType::Other => "Other"@,
            QueryType::Select => "Select"@,
            QueryType::Show => "Show"@,
            QueryType::Truncate => "Truncate"@,
            QueryType::Update => "Update"@,
        }
    }

    pub fn as_str(&self) -> (r: &'static str)
        ensures
            r@ == self.spec_name(),
    {
        match self {
            QueryType::Alter => "Alter",
            QueryType::Create => "Create",
            QueryType::Delete => "Delete",
            QueryType::Drop => "Drop",
            QueryType::Insert => "Insert",
            QueryType::Other => "Other",
            QueryType::Select => "Select",
            QueryType::Show => "Show",
            QueryType::Truncate => "Truncate",
            QueryType::Update => "Update",
        }
    }
}

/// Classification by the statement's leading keyword, case-insensitively.
/// A query may open with `SELECT`, `WITH`, `VALUES` or `TABLE`; `SHOW`,
/// `EXPLAIN` and `ANALYZE` all present like `SHOW`; anything unrecognized
/// is `Other`.
pub open spec fn spec_query_type(s: Seq<char>) -> QueryType {
    let w = spec_first_word(s);
    if w == spec_lower_seq("select"@) || w == spec_lower_seq("with"@) || w == spec_lower_seq(
        "values"@,
    ) || w == spec_lower_seq("table"@) {
        QueryType::Select
    } else if w == spec_lower_seq("insert"@) {
        QueryType::Insert
    } else if w == spec_lower_seq("update"@) {
        QueryType::Update
    } else if w == spec_lower_seq("delete"@) {
        QueryType::Delete
    } else if w == spec_lower_seq("create"@) {
        QueryType::Create
    } else if w == spec_lower_seq("alter"@) {
        QueryType::Alter
    } else if w == spec_lower_seq("drop"@) {
        QueryType::Drop
    } else if w == spec_lower_seq("truncate"@) {
        QueryType::Truncate
    } else if w == spec_lower_seq("show"@) || w == spec_lower_seq("explain"@) || w
        == spec_lower_seq("analyze"@) {
        QueryType::Show
    } else {
        QueryType::Other
    }
}

/// Classifies one normalized statement text into its coarse kind.
pub fn get_query_type(s: &str) -> (r: QueryType)
    ensures
        r == spec_query_type(s@),
{
    if first_word_is(s, "select") || first_word_is(s, "with") || first_word_is(s, "values")
        || first_word_is(s, "table") {
        QueryType::Select
    } else if first_word_is(s, "insert") {
        QueryType::Insert
    } else if first_word_is(s, "update") {
        QueryType::Update
    } else if first_word_is(s, "delete") {
        QueryType::Delete
    } else if first_word_is(s, "create") {
        QueryType::Create
    } else if first_word_is(s, "alter") {
        QueryType::Alter
    } else if first_word_is(s, "drop") {
        QueryType::Drop
    } else if first_word_is(s, "truncate") {
        QueryType::Truncate
    } else if first_word_is(s, "show") || first_word_is(s, "explain") || first_word_is(
        s,
        "analyze",
    ) {
        QueryType::Show
    } else {
        QueryType::Other
    }
}

// ---------------------------------------------------------------------------
// Parsing a script into statements
// ---------------------------------------------------------------------------

/// What the SQL parser makes of a script under the named grammar: the
/// normalized texts of its statements, or `None` where the grammar name is
/// unknown or the script does not parse. A function of its arguments alone.
pub uninterp spec fn parsed_statements(dialect: Seq<char>, sql: Seq<char>) -> Option<
    Seq<Seq<char>>,
>;

/// Relies on sqlparser::parser::Parser::parse_sql with
/// sqlparser::dialect::dialect_from_str, and on sqlparser's Display for
/// Statement: splits a script into statements under the named grammar and
/// renders each back to normalized text — deterministic in both arguments.
#[verifier::external_body]
fn parse_statements(dialect: &str, sql: &str) -> (r: Option<Vec<String>>)
    ensures
        (match r {
            Some(v) => parsed_statements(dialect@, sql@) == Some(v.deep_view()),
            None => parsed_statements(dialect@, sql@) is None,
        }),
{
    match sqlparser::dialect::dialect_from_str(dialect) {
        None => None,
        Some(d) => match sqlparser::parser::Parser::parse_sql(d.as_ref(), sql) {
            Ok(stmts) => Some(stmts.iter().map(|s| s.to_string()).collect()),
            Err(_) => None,
        },
    }
}

/// Splits a script under the dialect's grammar and classifies each statement.
/// A script that does not parse, or parses to nothing, is an error — not a
/// silent no-op.
pub fn sql_to_statements(dialect: Dialect, sql: &str) -> (r: Result<Vec<QueryType>, Error>)
    ensures
        (match parsed_statements(dialect.spec_parser_name(), sql@) {
            Some(ss) => if ss.len() == 0 {
                r == Result::<Vec<QueryType>, Error>::Err(Error::NoStatements)
            } else {
                r matches Ok(ts) && ts@.len() == ss.len() && (forall|i: int|
                    0 <= i < ss.len() ==> ts@[i] == spec_query_type(ss[i]))
            },
            None => r == Result::<Vec<QueryType>, Error>::Err(Error::NoStatements),
        }),
{
    let parsed = parse_statements(dialect.parser_name(), sql);
    match parsed {
        None => Err(Error::NoStatements),
        Some(statements) => {
            if statements.len() == 0 {
                return Err(Error::NoStatements);
            }
            let ghost ss = statements.deep_view();
            let n = statements.len();
            let mut types: Vec<QueryType> = Vec::new();
            for i in 0..n
                invariant
                    n == statements@.len(),
                    ss == statements.deep_view(),
                    types@.len() == i,
                    forall|j: int| 0 <= j < i ==> types@[j] == spec_query_type(ss[j]),
            {
                proof {
                    assert(ss[i as int] == statements@[i as int]@);
                }
                types.push(get_query_type(statements[i].as_str()));
            }
            Ok(types)
        },
    }
}

// ---------------------------------------------------------------------------
// Auto-limit
// ---------------------------------------------------------------------------

/// The display-safety row cap appended to unlimited selects.
pub open spec fn spec_auto_limited(s: Seq<char>, auto_limit: bool) -> Seq<char> {
    if auto_limit && spec_query_type(s) == QueryType::Select && !spec_contains_ci(s, "show"@)
        && !spec_contains_ci(s, "analyze"@) && !spec_contains_ci(s, "explain"@)
        && !spec_contains_ci(s, "limit"@) {
        s + " LIMIT 1000"@
    } else {
        s
    }
}

/// Appends ` LIMIT 1000` to a `Select` statement that carries no limiting
/// clause, when the caller opted in; every other statement passes through
/// unchanged.
pub fn apply_auto_limit(stmt: String, auto_limit: bool) -> (r: String)
    ensures
        r@ == spec_auto_limited(stmt@, auto_limit),
{
    if auto_limit && matches!(get_query_type(stmt.as_str()), QueryType::Select) && !contains_ci(
        stmt.as_str(),
        "show",
    ) && !contains_ci(stmt.as_str(), "analyze") && !contains_ci(stmt.as_str(), "explain")
        && !contains_ci(stmt.as_str(), "limit") {
        stmt.concat(" LIMIT 1000")
    } else {
        stmt
    }
}

// ---------------------------------------------------------------------------
// Preparing an enqueue
// ---------------------------------------------------------------------------

/// The stable id of one statement: the hex MD5 of the connection id, the
/// tab index and the final statement text. Identical statements in the same
/// editor position are idempotently addressable.
pub open spec fn spec_task_id(conn_id: Seq<char>, tab_idx: int, stmt: Seq<char>) -> Seq<char> {
    spec_md5_hex(conn_id + spec_u64_string(tab_idx) + stmt)
}

/// Computes one statement's stable task id.
pub fn statement_task_id(conn_id: &str, tab_idx: usize, stmt: &str) -> (r: String)
    ensures
        r@ == spec_task_id(conn_id@, tab_idx as int, stmt@),
{
    let mut source = String::from_str(conn_id);
    let tab = u64_to_string(tab_idx as u64);
    source.append(tab.as_str());
    source.append(stmt);
    md5_hash(source.as_str())
}

/// One statement of a submitted script, ready to dispatch: its final text,
/// its kind, its stable id, and its position in the script.
pub struct PreparedStatement {
    pub query: String,
    pub query_type: QueryType,
    pub id: String,
    pub query_idx: usize,
}

/// Whether a prepared statement is exactly what enqueueing the `i`-th parsed
/// statement must produce.
pub open spec fn spec_prepared_ok(
    p: PreparedStatement,
    conn_id: Seq<char>,
    tab_idx: int,
    stmt: Seq<char>,
    auto_limit: bool,
    i: int,
) -> bool {
    &&& p.query@ == spec_auto_limited(stmt, auto_limit)
    &&& p.query_type == spec_query_type(stmt)
    &&& p.id@ == spec_task_id(conn_id, tab_idx, spec_auto_limited(stmt, auto_limit))
    &&& p.query_idx == i
}

/// Prepares the synchronous single-shot execution: the script's first
/// statement, classified, under an id made of the connection id and the
/// statement text alone. No auto-limit applies here. The runtime layer
/// executes the statement and returns its result set directly.
pub fn prepare_execute_query(conn_id: &str, dialect: Dialect, sql: &str) -> (r: Result<
    PreparedStatement,
    Error,
>)
    ensures
        (match parsed_statements(dialect.spec_parser_name(), sql@) {
            Some(ss) => if ss.len() == 0 {
                r == Result::<PreparedStatement, Error>::Err(Error::NoStatements)
            } else {
                r matches Ok(p) && p.query@ == ss[0] && p.query_type == spec_query_type(ss[0])
                    && p.id@ == spec_md5_hex(conn_id@ + ss[0]) && p.query_idx == 0
            },
            None => r == Result::<PreparedStatement, Error>::Err(Error::NoStatements),
        }),
{
    let parsed = parse_statements(dialect.parser_name(), sql);
    match parsed {
        None => Err(Error::NoStatements),
        Some(statements) => {
            if statements.len() == 0 {
                return Err(Error::NoStatements);
            }
            proof {
                assert(statements.deep_view()[0] == statements@[0]@);
            }
            let stmt = statements[0].clone();
            let query_type = get_query_type(stmt.as_str());
            let mut source = String::from_str(conn_id);
            source.append(stmt.as_str());
            let id = md5_hash(source.as_str());
            Ok(PreparedStatement { query: stmt, query_type, id, query_idx: 0 })
        },
    }
}

/// Splits a script into statements under the dialect's grammar, applies the
/// auto-limit policy, and derives each statement's stable task id and
/// in-script index. An empty parse is rejected before any dispatch.
pub fn prepare_enqueue(
    conn_id: &str,
    dialect: Dialect,
    tab_idx: usize,
    sql: &str,
    auto_limit: bool,
) -> (r: Result<Vec<PreparedStatement>, Error>)
    ensures
        (match parsed_statements(dialect.spec_parser_name(), sql@) {
            Some(ss) => if ss.len() == 0 {
                r == Result::<Vec<PreparedStatement>, Error>::Err(Error::NoStatements)
            } else {
                r matches Ok(ps) && ps@.len() == ss.len() && (forall|i: int|
                    0 <= i < ss.len() ==> spec_prepared_ok(
                        ps@[i],
                        conn_id@,
                        tab_idx as int,
                        ss[i],
                        auto_limit,
                        i,
                    ))
            },
            None => r == Result::<Vec<PreparedStatement>, Error>::Err(Error::NoStatements),
        }),
{
    let parsed = parse_statements(dialect.parser_name(), sql);
    match parsed {
        None => Err(Error::NoStatements),
        Some(statements) => {
            if statements.len() == 0 {
                return Err(Error::NoStatements);
            }
            let ghost ss = statements.deep_view();
            let n = statements.len();
            let mut out: Vec<PreparedStatement> = Vec::new();
            for i in 0..n
                invariant
                    n == statements@.len(),
                    ss == statements.deep_view(),
                    out@.len() == i,
                    forall|j: int|
                        0 <= j < i ==> spec_prepared_ok(
                            out@[j],
                            conn_id@,
                            tab_idx as int,
                            ss[j],
                            auto_limit,
                            j,
                        ),
            {
                proof {
                    assert(ss[i as int] == statements@[i as int]@);
                }
                let stmt = statements[i].clone();
                let query_type = get_query_type(stmt.as_str());
                let query = apply_auto_limit(stmt, auto_limit);
                let id = statement_task_id(conn_id, tab_idx, query.as_str());
                out.push(PreparedStatement { query, query_type, id, query_idx: i });
            }
            Ok(out)
        },
    }
}

} // verus!
