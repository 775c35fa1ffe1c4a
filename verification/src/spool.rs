use vstd::prelude::*;
use crate::connection::ResultSet;
use crate::sql::QueryType;
use crate::text::{spec_u64_string, u64_to_string};

verus! {

// ---------------------------------------------------------------------------
// Paths
// ---------------------------------------------------------------------------

/// The local connection table's path inside the application directory.
pub fn get_db_path(app_dir: &str) -> (r: String)
    ensures
        r@ == app_dir@ + "/.app.db"@,
{
    let mut s = String::from_str(app_dir);
    s.append("/.app.db");
    s
}

/// Where a task's rows are spooled: `<tmp>/<task_id>`.
pub fn spool_data_path(tmp_dir: &str, id: &str) -> (r: String)
    ensures
        r@ == tmp_dir@ + "/"@ + id@,
{
    let mut s = String::from_str(tmp_dir);
    s.append("/");
    s.append(id);
    s
}

/// Where a task's sidecar metadata lives: `<tmp>/<task_id>.metadata`.
pub fn spool_metadata_path(tmp_dir: &str, id: &str) -> (r: String)
    ensures
        r@ == tmp_dir@ + "/"@ + id@ + ".metadata"@,
{
    let mut s = String::from_str(tmp_dir);
    s.append("/");
    s.append(id);
    s.append(".metadata");
    s
}

// ---------------------------------------------------------------------------
// The data file: one serialized record per line
// ---------------------------------------------------------------------------

/// The spooled form of a result's rows: each record followed by a newline.
pub open spec fn spec_rows_content(rows: Seq<Seq<char>>) -> Seq<char>
    decreases rows.len(),
{
    if rows.len() == 0 {
        Seq::empty()
    } else {
        spec_rows_content(rows.drop_last()) + rows.last() + "\n"@
    }
}

/// Serializes a result's rows for the spool, one record per line.
pub fn spool_rows_content(rows: &Vec<String>) -> (r: String)
    ensures
        r@ == spec_rows_content(rows.deep_view()),
{
    let ghost ss = rows.deep_view();
    let n = rows.len();
    let mut out = String::new();
    proof {
        assert(ss.take(0) =~= Seq::<Seq<char>>::empty());
    }
    for i in 0..n
        invariant
            n == rows@.len(),
            ss == rows.deep_view(),
            out@ == spec_rows_content(ss.take(i as int)),
    {
        proof {
            assert(ss[i as int] == rows@[i as int]@);
            assert(ss.take(i + 1).drop_last() =~= ss.take(i as int));
            assert(ss.take(i + 1).last() == ss[i as int]);
        }
        out.append(rows[i].as_str());
        out.append("\n");
    }
    proof {
        assert(ss.take(n as int) =~= ss);
    }
    out
}

// ---------------------------------------------------------------------------
// Joining, for the metadata arrays and the export formats
// ---------------------------------------------------------------------------

/// The items joined by the separator, with nothing around them.
pub open spec fn spec_join_sep(items: Seq<Seq<char>>, sep: Seq<char>) -> Seq<char>
    decreases items.len(),
{
    if items.len() == 0 {
        Seq::empty()
    } else if items.len() == 1 {
        items[0]
    } else {
        spec_join_sep(items.drop_last(), sep) + sep + items.last()
    }
}

/// Joins serialized items with a separator.
pub fn join_sep(items: &Vec<String>, sep: &str) -> (r: String)
    ensures
        r@ == spec_join_sep(items.deep_view(), sep@),
{
    let ghost ss = items.deep_view();
    let n = items.len();
    let mut out = String::new();
    proof {
        assert(ss.take(0) =~= Seq::<Seq<char>>::empty());
    }
    for i in 0..n
        invariant
            n == items@.len(),
            ss == items.deep_view(),
            out@ == spec_join_sep(ss.take(i as int), sep@),
    {
        proof {
            assert(ss[i as int] == items@[i as int]@);
            assert(ss.take(i + 1).drop_last() =~= ss.take(i as int));
            assert(ss.take(i + 1).last() == ss[i as int]);
            assert(ss.take(1) =~= seq![ss[0]]);
        }
        if i > 0 {
            out.append(sep);
        }
        out.append(items[i].as_str());
    }
    proof {
        assert(ss.take(n as int) =~= ss);
    }
    out
}

// ---------------------------------------------------------------------------
// The metadata file
// ---------------------------------------------------------------------------

/// What an outside JSON writer produces for a text: the quoted, escaped
/// JSON string literal denoting it; a function of the text alone.
pub uninterp spec fn json_quoted(s: Seq<char>) -> Seq<char>;

/// Relies on serde_json::to_string for &str: renders the JSON string
/// literal denoting `s`, quotes and escapes included.
#[verifier::external_body]
pub(crate) fn json_quote(s: &str) -> (r: String)
    ensures
        r@ == json_quoted(s@),
{
    serde_json::to_string(s).unwrap_or_default()
}

/// A JSON array of already-serialized values, or `null` for an absent list.
pub open spec fn spec_opt_array(items: Option<Seq<Seq<char>>>) -> Seq<char> {
    match items {
        Some(vs) => "["@ + spec_join_sep(vs, ","@) + "]"@,
        None => "null"@,
    }
}

fn opt_array(items: &Option<Vec<String>>) -> (r: String)
    ensures
        r@ == spec_opt_array(
            match items {
                Some(vs) => Some(vs.deep_view()),
                None => None,
            },
        ),
{
    match items {
        Some(vs) => {
            let mut s = String::from_str("[");
            let joined = join_sep(vs, ",");
            s.append(joined.as_str());
            s.append("]");
            s
        },
        None => String::from_str("null"),
    }
}

/// The sidecar metadata object: query kind, timing, counts, and the table
/// facts, keys in fixed order.
pub open spec fn spec_metadata_json(query_type: QueryType, rs: &ResultSet) -> Seq<char> {
    "{\"affected_rows\":"@ + spec_u64_string(rs.affected_rows as int) + ",\"columns\":"@
        + spec_opt_array(
        match rs.table.columns {
            Some(vs) => Some(vs.deep_view()),
            None => None,
        },
    ) + ",\"count\":"@ + spec_u64_string(rs.rows@.len() as int) + ",\"end_time\":"@
        + spec_u64_string(rs.end_time as int) + ",\"foreign_keys\":"@ + spec_opt_array(
        match rs.table.foreign_keys {
            Some(vs) => Some(vs.deep_view()),
            None => None,
        },
    ) + ",\"primary_key\":"@ + spec_opt_array(
        match rs.table.primary_key {
            Some(vs) => Some(vs.deep_view()),
            None => None,
        },
    ) + ",\"query_type\":\""@ + query_type.spec_name() + "\",\"start_time\":"@ + spec_u64_string(
        rs.start_time as int,
    ) + ",\"table\":"@ + json_quoted(rs.table.table@) + "}"@
}

/// Renders the sidecar metadata object for a spooled result.
pub fn metadata_json(query_type: QueryType, rs: &ResultSet) -> (r: String)
    requires
        rs.rows@.len() <= u64::MAX,
    ensures
        r@ == spec_metadata_json(query_type, rs),
{
    let mut s = String::from_str("{\"affected_rows\":");
    let affected = u64_to_string(rs.affected_rows);
    s.append(affected.as_str());
    s.append(",\"columns\":");
    let columns = opt_array(&rs.table.columns);
    s.append(columns.as_str());
    s.append(",\"count\":");
    let count = u64_to_string(rs.rows.len() as u64);
    s.append(count.as_str());
    s.append(",\"end_time\":");
    let end_time = u64_to_string(rs.end_time);
    s.append(end_time.as_str());
    s.append(",\"foreign_keys\":");
    let fks = opt_array(&rs.table.foreign_keys);
    s.append(fks.as_str());
    s.append(",\"primary_key\":");
    let pk = opt_array(&rs.table.primary_key);
    s.append(pk.as_str());
    s.append(",\"query_type\":\"");
    s.append(query_type.as_str());
    s.append("\",\"start_time\":");
    let start_time = u64_to_string(rs.start_time);
    s.append(start_time.as_str());
    s.append(",\"table\":");
    let table = json_quote(rs.table.table.as_str());
    s.append(table.as_str());
    s.append("}");
    s
}

/// Everything a completed task's spool write needs: the two paths and the
/// two files' contents.
pub struct SpoolArtifacts {
    pub data_path: String,
    pub metadata_path: String,
    pub rows_content: String,
    pub metadata_content: String,
}

/// Lays out a completed task's spool write: rows one per line under
/// `<tmp>/<id>`, the metadata object beside them under
/// `<tmp>/<id>.metadata`.
pub fn write_query_plan(id: &str, result_set: &ResultSet, query_type: QueryType, tmp_dir: &str)
    -> (r: SpoolArtifacts)
    requires
        result_set.rows@.len() <= u64::MAX,
    ensures
        r.data_path@ == tmp_dir@ + "/"@ + id@,
        r.metadata_path@ == tmp_dir@ + "/"@ + id@ + ".metadata"@,
        r.rows_content@ == spec_rows_content(result_set.rows.deep_view()),
        r.metadata_content@ == spec_metadata_json(query_type, result_set),
{
    SpoolArtifacts {
        data_path: spool_data_path(tmp_dir, id),
        metadata_path: spool_metadata_path(tmp_dir, id),
        rows_content: spool_rows_content(&result_set.rows),
        metadata_content: metadata_json(query_type, result_set),
    }
}

// ---------------------------------------------------------------------------
// Pagination
// ---------------------------------------------------------------------------

/// A paginated read's arguments, as the presentation layer sends them.
pub struct QueryResultParams {
    pub path: String,
    pub page: usize,
    pub page_size: usize,
}

/// The requested page of the spooled lines: the slice from `page * limit`,
/// at most `limit` long, clamped to the file.
pub open spec fn spec_page(lines: Seq<Seq<char>>, page: int, limit: int) -> Seq<Seq<char>> {
    let start = if page * limit <= lines.len() {
        page * limit
    } else {
        lines.len() as int
    };
    let end = if start + limit <= lines.len() {
        start + limit
    } else {
        lines.len() as int
    };
    lines.subrange(start, end)
}

/// Reads one page of spooled lines by slicing — never the whole file's
/// worth of copies. Reading the same page of the same lines twice gives
/// identical results, since the result is a function of the arguments.
pub fn paginate_lines(lines: &Vec<String>, page: usize, limit: usize) -> (r: Vec<String>)
    ensures
        r.deep_view() == spec_page(lines.deep_view(), page as int, limit as int),
{
    let ghost ss = lines.deep_view();
    let n = lines.len();
    let start: usize = if limit == 0 {
        if 0 <= n {
            0
        } else {
            0
        }
    } else if page <= n / limit {
        proof {
            assert(page * limit <= (n / limit) * limit <= n) by (nonlinear_arith)
                requires
                    limit > 0,
                    page <= n / limit,
            ;
        }
        let s = page * limit;
        if s <= n {
            s
        } else {
            n
        }
    } else {
        proof {
            assert(page * limit > n) by (nonlinear_arith)
                requires
                    limit > 0,
                    page > n / limit,
            ;
        }
        n
    };
    let end: usize = if limit <= n - start {
        start + limit
    } else {
        n
    };
    let mut out: Vec<String> = Vec::new();
    let ghost gstart = start as int;
    proof {
        assert(ss.subrange(gstart, gstart) =~= Seq::<Seq<char>>::empty());
    }
    let mut i: usize = start;
    while i < end
        invariant
            n == lines@.len(),
            ss == lines.deep_view(),
            gstart == start as int,
            start <= i <= end <= n,
            out.deep_view() == ss.subrange(gstart, i as int),
        decreases end - i,
    {
        let ghost prev = out.deep_view();
        let elem = lines[i].clone();
        proof {
            assert(ss[i as int] == lines@[i as int]@);
            assert(elem@ == ss[i as int]);
        }
        out.push(elem);
        proof {
            assert(out.deep_view() =~= prev.push(ss[i as int]));
            assert(prev.push(ss[i as int]) =~= ss.subrange(gstart, i + 1));
        }
        i = i + 1;
    }
    proof {
        assert(out.deep_view() =~= spec_page(ss, page as int, limit as int));
    }
    out
}

/// Law: pagination is idempotent. Two reads of the same page of the same
/// spooled lines are equal, line for line: the page is a function of the
/// lines and the arguments alone.
pub proof fn lemma_paginate_idempotent(
    lines: Seq<Seq<char>>,
    page: int,
    limit: int,
    a: Seq<Seq<char>>,
    b: Seq<Seq<char>>,
)
    requires
        a == spec_page(lines, page, limit),
        b == spec_page(lines, page, limit),
    ensures
        a == b,
{
}

// ---------------------------------------------------------------------------
// Export formats
// ---------------------------------------------------------------------------

/// Reshapes spooled lines into a JSON array: the records joined with
/// commas, one per line, inside brackets.
pub fn download_json_content(lines: &Vec<String>) -> (r: String)
    requires
        lines@.len() > 0,
    ensures
        r@ == "[\n"@ + spec_join_sep(lines.deep_view(), ",\n"@) + "\n]"@,
{
    let mut s = String::from_str("[\n");
    let joined = join_sep(lines, ",\n");
    s.append(joined.as_str());
    s.append("\n]");
    s
}

/// Reshapes a parsed result into CSV: the header row of keys, then one
/// comma-joined line per record, in order.
pub fn download_csv_content(keys: &Vec<String>, rows: &Vec<Vec<String>>) -> (r: String)
    ensures
        r@ == spec_join_sep(keys.deep_view(), ","@) + "\n"@ + spec_join_sep(
            rows.deep_view().map_values(|row: Seq<Seq<char>>| spec_join_sep(row, ","@)),
            "\n"@,
        ),
{
    let ghost rr = rows.deep_view();
    let mut s = join_sep(keys, ",");
    s.append("\n");
    let n = rows.len();
    let mut joined_rows: Vec<String> = Vec::new();
    for i in 0..n
        invariant
            n == rows@.len(),
            rr == rows.deep_view(),
            joined_rows@.len() == i,
            forall|j: int|
                0 <= j < i ==> (#[trigger] joined_rows@[j])@ == spec_join_sep(rr[j], ","@),
    {
        proof {
            assert(rr[i as int] == rows@[i as int].deep_view());
        }
        let line = join_sep(&rows[i], ",");
        joined_rows.push(line);
    }
    proof {
        assert(joined_rows.deep_view() =~= rr.map_values(
            |row: Seq<Seq<char>>| spec_join_sep(row, ","@),
        ));
    }
    let body = join_sep(&joined_rows, "\n");
    s.append(body.as_str());
    s
}

} // verus!
