pub mod mysql;
pub mod postgresql;
pub mod sqlite;

use vstd::prelude::*;
use crate::spool::{join_sep, json_quote, json_quoted, spec_join_sep};

verus! {

/// A JSON array of already-serialized records.
pub open spec fn spec_array(items: Seq<Seq<char>>) -> Seq<char> {
    "["@ + spec_join_sep(items, ","@) + "]"@
}

fn json_array(items: &Vec<String>) -> (r: String)
    ensures
        r@ == spec_array(items.deep_view()),
{
    let mut s = String::from_str("[");
    let joined = join_sep(items, ",");
    s.append(joined.as_str());
    s.append("]");
    s
}

/// The aggregate description of one table: its columns, keys, indices and
/// triggers, each list already normalized to the common record shape.
pub open spec fn spec_table_structure(
    table: Seq<char>,
    columns: Seq<Seq<char>>,
    foreign_keys: Seq<Seq<char>>,
    indices: Seq<Seq<char>>,
    primary_key: Seq<Seq<char>>,
    triggers: Seq<Seq<char>>,
) -> Seq<char> {
    "{\"columns\":"@ + spec_array(columns) + ",\"foreign_keys\":"@ + spec_array(foreign_keys)
        + ",\"indices\":"@ + spec_array(indices) + ",\"primary_key\":"@ + spec_array(primary_key)
        + ",\"table\":"@ + json_quoted(table) + ",\"triggers\":"@ + spec_array(triggers) + "}"@
}

/// Assembles one table's structure from the five introspection listings
/// the capability layer fetched for it.
pub fn get_table_structure(
    table: &str,
    columns: &Vec<String>,
    foreign_keys: &Vec<String>,
    indices: &Vec<String>,
    primary_key: &Vec<String>,
    triggers: &Vec<String>,
) -> (r: String)
    ensures
        r@ == spec_table_structure(
            table@,
            columns.deep_view(),
            foreign_keys.deep_view(),
            indices.deep_view(),
            primary_key.deep_view(),
            triggers.deep_view(),
        ),
{
    let mut s = String::from_str("{\"columns\":");
    let a = json_array(columns);
    s.append(a.as_str());
    s.append(",\"foreign_keys\":");
    let a = json_array(foreign_keys);
    s.append(a.as_str());
    s.append(",\"indices\":");
    let a = json_array(indices);
    s.append(a.as_str());
    s.append(",\"primary_key\":");
    let a = json_array(primary_key);
    s.append(a.as_str());
    s.append(",\"table\":");
    let q = json_quote(table);
    s.append(q.as_str());
    s.append(",\"triggers\":");
    let a = json_array(triggers);
    s.append(a.as_str());
    s.append("}");
    s
}

/// `t` is the tail of `s`.
pub open spec fn spec_ends_with(s: Seq<char>, t: Seq<char>) -> bool {
    s.len() >= t.len() && s.skip(s.len() - t.len()) == t
}

/// A concatenation ends with its last part.
pub proof fn lemma_concat_ends_with(prefix: Seq<char>, tail: Seq<char>)
    ensures
        spec_ends_with(prefix + tail, tail),
{
    assert((prefix + tail).skip(prefix.len() as int) =~= tail);
}

} // verus!
