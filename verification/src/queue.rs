use vstd::prelude::*;
use crate::connection::{conn_like, InitiatedConnection, ResultSet};
use crate::error::{spec_message, Error};
use crate::registry::{clone_token, new_cancellation_token, AppState};
use crate::sql::{
    parsed_statements, prepare_enqueue, spec_auto_limited, spec_prepared_ok, spec_query_type,
    spec_task_id, QueryType,
};

verus! {

// ---------------------------------------------------------------------------
// Events and task status
// ---------------------------------------------------------------------------

/// The events the engine emits towards the presentation layer.
pub enum Events {
    QueryFinished,
}

impl Events {
    pub fn as_str(&self) -> (r: &'static str)
        ensures
            r@ == "query_finished"@,
    {
        match self {
            Events::QueryFinished => "query_finished",
        }
    }
}

/// Where a task stands: still running, completed, or failed.
#[derive(Clone, Copy, Debug, PartialEq, Eq, Structural)]
pub enum QueryTaskStatus {
    Progress,
    Completed,
    Error,
}

impl Default for QueryTaskStatus {
    fn default() -> (r: QueryTaskStatus)
        ensures
            r == QueryTaskStatus::Progress,
    {
        QueryTaskStatus::Progress
    }
}

// ---------------------------------------------------------------------------
// Tasks
// ---------------------------------------------------------------------------

/// One cancellable unit of work: a single parsed statement bound to a
/// connection snapshot, its stable id, its position, and the handle that
/// cancels it.
pub struct QueryTask {
    pub conn: InitiatedConnection,
    pub query: String,
    pub id: String,
    pub query_type: QueryType,
    pub status: QueryTaskStatus,
    pub tab_idx: usize,
    pub query_idx: usize,
    pub table: Option<String>,
    pub cancel_token: tokio_util::sync::CancellationToken,
}

impl QueryTask {
    /// Assembles a task from a connection snapshot and one prepared
    /// statement's text, kind and id.
    pub fn new(
        conn: InitiatedConnection,
        query: (String, QueryType, String),
        tab_idx: usize,
        query_idx: usize,
        table: Option<String>,
        cancel_token: tokio_util::sync::CancellationToken,
    ) -> (r: QueryTask)
        ensures
            r.conn == conn,
            r.query == query.0,
            r.query_type == query.1,
            r.id == query.2,
            r.tab_idx == tab_idx,
            r.query_idx == query_idx,
            r.table == table,
            r.cancel_token == cancel_token,
            r.status == QueryTaskStatus::Progress,
    {
        QueryTask {
            conn,
            query: query.0,
            query_type: query.1,
            id: query.2,
            tab_idx,
            query_idx,
            status: QueryTaskStatus::Progress,
            table,
            cancel_token,
        }
    }
}

/// What an enqueue call reports back at once: the connection, the tab, and
/// the ids of the result sets to come.
pub struct QueryTaskEnqueueResult {
    pub conn_id: String,
    pub tab_idx: usize,
    pub status: QueryTaskStatus,
    pub result_sets: Vec<String>,
}

/// A task's completion or failure event, with everything the presentation
/// layer needs to place it: ids, indices, and the spool path or the error.
pub struct QueryTaskResult {
    pub conn_id: String,
    pub status: QueryTaskStatus,
    pub query: String,
    pub id: String,
    pub path: Option<String>,
    pub error: Option<String>,
    pub count: Option<usize>,
    pub tab_idx: usize,
    pub query_idx: usize,
}

/// A completion event shaped exactly as reporting `task`'s success must be:
/// completed status, the spool path, the row count, and no error.
pub open spec fn spec_success_result(
    out: QueryTaskResult,
    task: QueryTask,
    rows: int,
    path: Seq<char>,
) -> bool {
    &&& out.conn_id@ == task.conn.config.id@
    &&& out.status == QueryTaskStatus::Completed
    &&& out.query@ == task.query@
    &&& out.id@ == task.id@
    &&& out.tab_idx == task.tab_idx
    &&& out.query_idx == task.query_idx
    &&& (out.path matches Some(p) && p@ == path)
    &&& out.error is None
    &&& (out.count matches Some(c) && c == rows)
}

/// A failure event shaped exactly as reporting `task`'s failure must be:
/// error status, the failure's message, and no path or count.
pub open spec fn spec_error_result(out: QueryTaskResult, task: QueryTask, msg: Seq<char>) -> bool {
    &&& out.conn_id@ == task.conn.config.id@
    &&& out.status == QueryTaskStatus::Error
    &&& out.query@ == task.query@
    &&& out.id@ == task.id@
    &&& out.tab_idx == task.tab_idx
    &&& out.query_idx == task.query_idx
    &&& out.path is None
    &&& (out.error matches Some(m) && m@ == msg)
    &&& out.count is None
}

impl QueryTaskResult {
    /// The completion event for a task whose result was spooled at `path`.
    pub fn success(task: QueryTask, result_set: &ResultSet, path: String) -> (r: QueryTaskResult)
        ensures
            spec_success_result(r, task, result_set.rows@.len() as int, path@),
    {
        let count = result_set.rows.len();
        QueryTaskResult {
            conn_id: task.conn.config.id,
            count: Some(count),
            status: QueryTaskStatus::Completed,
            query: task.query,
            id: task.id,
            query_idx: task.query_idx,
            tab_idx: task.tab_idx,
            path: Some(path),
            error: None,
        }
    }

    /// The failure event for a task, carrying the error's message.
    pub fn error(task: QueryTask, e: Error) -> (r: QueryTaskResult)
        ensures
            spec_error_result(r, task, spec_message(&e)),
    {
        let msg = e.message();
        QueryTaskResult {
            conn_id: task.conn.config.id,
            status: QueryTaskStatus::Error,
            count: None,
            query: task.query,
            id: task.id,
            query_idx: task.query_idx,
            tab_idx: task.tab_idx,
            path: None,
            error: Some(msg),
        }
    }
}

// ---------------------------------------------------------------------------
// Settling a task
// ---------------------------------------------------------------------------

/// How a task's race resolved: the cancellation handle fired first, or the
/// statement finished with a result or an error.
pub enum TaskEvent {
    Cancelled,
    Finished(Result<ResultSet, Error>),
}

/// What a settled task reports. A cancelled task reports nothing — and,
/// by the precondition, nothing was spooled for it. A failed statement
/// reports its error. A successful statement reports its spool path, or the
/// spool write's own failure.
pub fn task_report(task: QueryTask, ev: TaskEvent, write_result: Option<Result<String, Error>>)
    -> (r: Option<QueryTaskResult>)
    requires
        (ev matches TaskEvent::Finished(res) && res is Ok) <==> write_result is Some,
    ensures
        ev is Cancelled ==> r is None,
        (match ev {
            TaskEvent::Cancelled => r is None,
            TaskEvent::Finished(res) => match res {
                Ok(rs) => match write_result {
                    Some(Ok(path)) => r matches Some(out) && spec_success_result(
                        out,
                        task,
                        rs.rows@.len() as int,
                        path@,
                    ),
                    Some(Err(we)) => r matches Some(out) && spec_error_result(
                        out,
                        task,
                        spec_message(&we),
                    ),
                    None => false,
                },
                Err(e) => r matches Some(out) && spec_error_result(out, task, spec_message(&e)),
            },
        }),
{
    match ev {
        TaskEvent::Cancelled => None,
        TaskEvent::Finished(res) => match res {
            Ok(rs) => match write_result {
                Some(Ok(path)) => Some(QueryTaskResult::success(task, &rs, path)),
                Some(Err(we)) => Some(QueryTaskResult::error(task, we)),
                None => None,
            },
            Err(e) => Some(QueryTaskResult::error(task, e)),
        },
    }
}

// ---------------------------------------------------------------------------
// Enqueueing a script
// ---------------------------------------------------------------------------

/// Two optional strings with the same text.
pub open spec fn option_str_like(a: Option<String>, b: Option<String>) -> bool {
    match (a, b) {
        (Some(x), Some(y)) => x@ == y@,
        (None, None) => true,
        _ => false,
    }
}

/// A task shaped exactly as dispatching the `i`-th statement of the script
/// must produce it: the connection snapshot, the auto-limited text, the
/// classification, the stable id, the positions, and the table context.
pub open spec fn spec_task_built(
    t: QueryTask,
    conn: InitiatedConnection,
    stmt: Seq<char>,
    auto_limit: bool,
    tab_idx: int,
    i: int,
    table: Option<String>,
) -> bool {
    &&& conn_like(t.conn, conn)
    &&& t.query@ == spec_auto_limited(stmt, auto_limit)
    &&& t.query_type == spec_query_type(stmt)
    &&& t.id@ == spec_task_id(conn.config.id@, tab_idx, spec_auto_limited(stmt, auto_limit))
    &&& t.status == QueryTaskStatus::Progress
    &&& t.tab_idx == tab_idx
    &&& t.query_idx == i
    &&& option_str_like(t.table, table)
}

/// Splits a script against a registered connection, derives each
/// statement's task, and registers a fresh cancellation handle under each
/// task's id. Returns the tasks to dispatch and the enqueue receipt whose
/// result-set ids line up with the tasks. The live-connection registry is
/// never touched.
pub fn enqueue_query(
    state: &mut AppState,
    conn_id: &str,
    tab_idx: usize,
    sql: &str,
    auto_limit: bool,
    table: Option<String>,
) -> (r: Result<(Vec<QueryTask>, QueryTaskEnqueueResult), Error>)
    ensures
        final(state).connections@ == old(state).connections@,
        !old(state).connections@.contains_key(conn_id@) ==> (r matches Err(e) && e matches
            Error::Connect(m) && m@ == "Failed to get connection"@ && final(state).cancel_tokens@
            == old(state).cancel_tokens@),
        old(state).connections@.contains_key(conn_id@) ==> (match parsed_statements(
            old(state).connections@[conn_id@].config.dialect.spec_parser_name(),
            sql@,
        ) {
            None => r == Result::<(Vec<QueryTask>, QueryTaskEnqueueResult), Error>::Err(
                Error::NoStatements,
            ) && final(state).cancel_tokens@ == old(state).cancel_tokens@,
            Some(ss) => if ss.len() == 0 {
                r == Result::<(Vec<QueryTask>, QueryTaskEnqueueResult), Error>::Err(
                    Error::NoStatements,
                ) && final(state).cancel_tokens@ == old(state).cancel_tokens@
            } else {
                r matches Ok((tasks, receipt)) && tasks@.len() == ss.len() && (forall|i: int|
                    0 <= i < ss.len() ==> spec_task_built(
                        tasks@[i],
                        old(state).connections@[conn_id@],
                        ss[i],
                        auto_limit,
                        tab_idx as int,
                        i,
                        table,
                    )) && (forall|i: int|
                    0 <= i < ss.len() ==> final(state).cancel_tokens@.contains_key(
                        #[trigger] tasks@[i].id@,
                    )) && (forall|k: Seq<char>|
                    old(state).cancel_tokens@.contains_key(k)
                        ==> final(state).cancel_tokens@.contains_key(k)) && receipt.conn_id@
                    == conn_id@ && receipt.tab_idx == tab_idx && receipt.status
                    == QueryTaskStatus::Progress && receipt.result_sets@.len() == ss.len() && (
                forall|i: int|
                    0 <= i < ss.len() ==> (#[trigger] receipt.result_sets@[i])@ == tasks@[i].id@)
            },
        }),
{
    let conn = match state.acquire_connection(conn_id) {
        None => {
            return Err(Error::Connect(String::from_str("Failed to get connection")));
        },
        Some(c) => c.duplicate(),
    };
    let ghost connval = old(state).connections@[conn_id@];
    let prepared = match prepare_enqueue(
        conn.config.id.as_str(),
        conn.config.dialect,
        tab_idx,
        sql,
        auto_limit,
    ) {
        Err(e) => {
            return Err(e);
        },
        Ok(ps) => ps,
    };
    let ghost ss = (match parsed_statements(connval.config.dialect.spec_parser_name(), sql@) {
        Some(ss0) => ss0,
        None => Seq::empty(),
    });
    let ghost old_tokens = state.cancel_tokens@;
    let n = prepared.len();
    let mut tasks: Vec<QueryTask> = Vec::new();
    let mut ids: Vec<String> = Vec::new();
    for i in 0..n
        invariant
            n == prepared@.len(),
            n == ss.len(),
            conn_like(conn, connval),
            forall|j: int|
                0 <= j < n ==> spec_prepared_ok(
                    prepared@[j],
                    conn.config.id@,
                    tab_idx as int,
                    ss[j],
                    auto_limit,
                    j,
                ),
            tasks@.len() == i,
            ids@.len() == i,
            forall|j: int|
                0 <= j < i ==> spec_task_built(
                    tasks@[j],
                    connval,
                    ss[j],
                    auto_limit,
                    tab_idx as int,
                    j,
                    table,
                ),
            forall|j: int|
                0 <= j < i ==> state.cancel_tokens@.contains_key(#[trigger] tasks@[j].id@),
            forall|k: Seq<char>|
                old_tokens.contains_key(k) ==> state.cancel_tokens@.contains_key(k),
            state.connections@ == old(state).connections@,
            forall|j: int| 0 <= j < i ==> (#[trigger] ids@[j])@ == tasks@[j].id@,
    {
        let token = new_cancellation_token();
        let task_token = clone_token(&token);
        state.register_token(prepared[i].id.clone(), token);
        let table_copy: Option<String> = match &table {
            Some(t) => Some(t.clone()),
            None => None,
        };
        let task = QueryTask::new(
            conn.duplicate(),
            (prepared[i].query.clone(), prepared[i].query_type, prepared[i].id.clone()),
            tab_idx,
            prepared[i].query_idx,
            table_copy,
            task_token,
        );
        ids.push(prepared[i].id.clone());
        tasks.push(task);
    }
    let receipt = QueryTaskEnqueueResult {
        conn_id: String::from_str(conn_id),
        tab_idx,
        status: QueryTaskStatus::Progress,
        result_sets: ids,
    };
    Ok((tasks, receipt))
}

} // verus!
