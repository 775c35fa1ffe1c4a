use vstd::prelude::*;
use crate::connection::InitiatedConnection;
use crate::error::Error;
use crate::text::str_eq;

verus! {

// ---------------------------------------------------------------------------
// Cancellation tokens
// ---------------------------------------------------------------------------

#[verifier::external_type_specification]
#[verifier::external_body]
pub struct ExCancellationToken(tokio_util::sync::CancellationToken);

/// Relies on tokio_util::sync::CancellationToken::new: a fresh token,
/// not yet cancelled, sharing state with nothing else.
#[verifier::external_body]
pub fn new_cancellation_token() -> (r: tokio_util::sync::CancellationToken) {
    tokio_util::sync::CancellationToken::new()
}

/// Relies on tokio_util::sync::CancellationToken::clone: a second handle to
/// the same token, so that cancelling either cancels both.
#[verifier::external_body]
pub fn clone_token(t: &tokio_util::sync::CancellationToken) -> (r:
    tokio_util::sync::CancellationToken) {
    t.clone()
}

/// Relies on tokio_util::sync::CancellationToken::cancel: fires the token,
/// waking every unit racing on it.
#[verifier::external_body]
pub fn cancel_token_now(t: &tokio_util::sync::CancellationToken) {
    t.cancel();
}

/// Relies on tokio_util::sync::CancellationToken::is_cancelled. The token is
/// shared mutable state, so nothing is assumed of the answer.
#[verifier::external_body]
pub fn token_is_cancelled(t: &tokio_util::sync::CancellationToken) -> (r: bool) {
    t.is_cancelled()
}

// ---------------------------------------------------------------------------
// A registry: a mutexed map from id to value, modeled exactly
// ---------------------------------------------------------------------------

/// The map denoted by a sequence of keyed entries; a later entry for the
/// same key shadows an earlier one.
pub open spec fn reg_map<V>(s: Seq<(String, V)>) -> Map<Seq<char>, V>
    decreases s.len(),
{
    if s.len() == 0 {
        Map::empty()
    } else {
        reg_map(s.drop_last()).insert(s.last().0@, s.last().1)
    }
}

/// A process-wide id-to-value table. The runtime layer guards it with a
/// mutex; this models the map under the lock.
pub struct Registry<V> {
    entries: Vec<(String, V)>,
}

impl<V> View for Registry<V> {
    type V = Map<Seq<char>, V>;

    closed spec fn view(&self) -> Map<Seq<char>, V> {
        reg_map(self.entries@)
    }
}

proof fn lemma_reg_map_absent<V>(s: Seq<(String, V)>, k: Seq<char>)
    requires
        forall|j: int| 0 <= j < s.len() ==> (#[trigger] s[j]).0@ != k,
    ensures
        !reg_map(s).contains_key(k),
    decreases s.len(),
{
    if s.len() > 0 {
        assert(forall|j: int|
            0 <= j < s.len() - 1 ==> #[trigger] s.drop_last()[j] == s[j]);
        lemma_reg_map_absent(s.drop_last(), k);
    }
}

proof fn lemma_reg_map_last_val<V>(s: Seq<(String, V)>, i: int, k: Seq<char>)
    requires
        0 <= i < s.len(),
        s[i].0@ == k,
        forall|j: int| i < j < s.len() ==> (#[trigger] s[j]).0@ != k,
    ensures
        reg_map(s).contains_key(k),
        reg_map(s)[k] == s[i].1,
    decreases s.len(),
{
    if i < s.len() - 1 {
        assert(forall|j: int|
            0 <= j < s.len() - 1 ==> #[trigger] s.drop_last()[j] == s[j]);
        lemma_reg_map_last_val(s.drop_last(), i, k);
        assert(s.last().0@ != k);
    }
}

impl<V> Registry<V> {
    /// An empty registry; both process registries start empty.
    pub fn new() -> (r: Registry<V>)
        ensures
            r@ == Map::<Seq<char>, V>::empty(),
    {
        Registry { entries: Vec::new() }
    }

    /// Installs `value` under `id`, replacing any earlier value.
    pub fn insert(&mut self, id: String, value: V)
        ensures
            final(self)@ == old(self)@.insert(id@, value),
    {
        let ghost oldseq = self.entries@;
        self.entries.push((id, value));
        proof {
            assert(self.entries@.drop_last() =~= oldseq);
        }
    }

    /// Looks an id up.
    pub fn get(&self, id: &str) -> (r: Option<&V>)
        ensures
            (match r {
                Some(v) => self@.contains_key(id@) && *v == self@[id@],
                None => !self@.contains_key(id@),
            }),
    {
        let n = self.entries.len();
        let mut i: usize = n;
        while i > 0
            invariant
                n == self.entries@.len(),
                i <= n,
                forall|j: int|
                    i <= j < n ==> (#[trigger] self.entries@[j]).0@ != id@,
            decreases i,
        {
            i = i - 1;
            if str_eq(self.entries[i].0.as_str(), id) {
                proof {
                    lemma_reg_map_last_val(self.entries@, i as int, id@);
                }
                return Some(&self.entries[i].1);
            }
        }
        proof {
            lemma_reg_map_absent(self.entries@, id@);
        }
        None
    }

    /// Drops whatever the registry holds under `id`.
    pub fn remove(&mut self, id: &str)
        ensures
            final(self)@ == old(self)@.remove(id@),
    {
        let ghost s = self.entries@;
        let ghost k = id@;
        let mut kept: Vec<(String, V)> = Vec::new();
        let mut processed: usize = 0;
        let n = self.entries.len();
        proof {
            assert(s.take(0) =~= Seq::<(String, V)>::empty());
            assert(s.skip(0) =~= s);
            assert(reg_map(kept@) =~= reg_map(s.take(0)).remove(k));
        }
        while self.entries.len() > 0
            invariant
                k == id@,
                n == s.len(),
                processed <= s.len(),
                self.entries@ == s.skip(processed as int),
                reg_map(kept@) == reg_map(s.take(processed as int)).remove(k),
            decreases self.entries@.len(),
        {
            let e = self.entries.remove(0);
            proof {
                assert(e == s[processed as int]);
                assert(s.skip(processed as int).remove(0) =~= s.skip(processed + 1));
            }
            let ghost prev = kept@;
            let is_match = str_eq(e.0.as_str(), id);
            if !is_match {
                kept.push(e);
            }
            proof {
                assert(s.take(processed + 1).drop_last() =~= s.take(processed as int));
                assert(s.take(processed + 1).last() == s[processed as int]);
                let m = reg_map(s.take(processed as int));
                let le = s[processed as int];
                if le.0@ == k {
                    assert(m.insert(le.0@, le.1).remove(k) =~= m.remove(k));
                } else {
                    assert(kept@.drop_last() =~= prev);
                    assert(m.insert(le.0@, le.1).remove(k) =~= m.remove(k).insert(le.0@, le.1));
                }
            }
            processed = processed + 1;
        }
        proof {
            assert(s.skip(s.len() as int) =~= Seq::<(String, V)>::empty());
            assert(s.take(s.len() as int) =~= s);
        }
        self.entries = kept;
    }
}

// ---------------------------------------------------------------------------
// The process state: both registries
// ---------------------------------------------------------------------------

/// The engine's process-wide state: the live connections and the
/// cancellation handles of in-flight work, each keyed by id.
pub struct AppState {
    pub connections: Registry<InitiatedConnection>,
    pub cancel_tokens: Registry<tokio_util::sync::CancellationToken>,
}

impl AppState {
    /// Both registries start empty.
    pub fn new() -> (r: AppState)
        ensures
            r.connections@ == Map::<Seq<char>, InitiatedConnection>::empty(),
            r.cancel_tokens@ == Map::<Seq<char>, tokio_util::sync::CancellationToken>::empty(),
    {
        AppState { connections: Registry::new(), cancel_tokens: Registry::new() }
    }

    /// Installs a built connection under its id and reports its schema.
    pub fn connect(&mut self, conn: InitiatedConnection) -> (r: String)
        ensures
            final(self).connections@ == old(self).connections@.insert(conn.config.id@, conn),
            final(self).cancel_tokens@ == old(self).cancel_tokens@,
            r@ == conn.schema@,
    {
        let schema = conn.get_schema();
        let id = conn.config.id.clone();
        self.connections.insert(id, conn);
        schema
    }

    /// Removes a connection from the registry.
    pub fn disconnect(&mut self, conn_id: &str)
        ensures
            final(self).connections@ == old(self).connections@.remove(conn_id@),
            final(self).cancel_tokens@ == old(self).cancel_tokens@,
    {
        self.connections.remove(conn_id);
    }

    /// Replaces the registry entry for an already-connected id.
    pub fn update_connection(&mut self, conn: InitiatedConnection)
        ensures
            final(self).connections@ == old(self).connections@.insert(conn.config.id@, conn),
            final(self).cancel_tokens@ == old(self).cancel_tokens@,
    {
        let id = conn.config.id.clone();
        self.connections.insert(id, conn);
    }

    /// Hands out the connection registered under an id, if any.
    pub fn acquire_connection(&self, conn_id: &str) -> (r: Option<&InitiatedConnection>)
        ensures
            (match r {
                Some(c) => self.connections@.contains_key(conn_id@) && *c
                    == self.connections@[conn_id@],
                None => !self.connections@.contains_key(conn_id@),
            }),
    {
        self.connections.get(conn_id)
    }

    /// Registers a fresh cancellation handle under a task or connection id.
    pub fn register_token(&mut self, id: String, token: tokio_util::sync::CancellationToken)
        ensures
            final(self).cancel_tokens@ == old(self).cancel_tokens@.insert(id@, token),
            final(self).connections@ == old(self).connections@,
    {
        self.cancel_tokens.insert(id, token);
    }

    /// Fires the cancellation handle registered under `id`, if any, and
    /// drops it from the registry: afterwards the id is absent, whether or
    /// not it was present before.
    pub fn cancel_token(&mut self, id: &str)
        ensures
            final(self).cancel_tokens@ == old(self).cancel_tokens@.remove(id@),
            !final(self).cancel_tokens@.contains_key(id@),
            final(self).connections@ == old(self).connections@,
    {
        match self.cancel_tokens.get(id) {
            Some(token) => {
                cancel_token_now(token);
            },
            None => {},
        }
        self.cancel_tokens.remove(id);
    }

    /// Finishes a connection build. A successful build is installed and its
    /// schema reported. A failed build installs nothing — the
    /// live-connection registry is left exactly as it was — and the build's
    /// tunnel token, if one was registered, is fired and dropped.
    pub fn finish_init_connection(&mut self, conn_id: &str, built: Option<InitiatedConnection>)
        -> (r: Result<String, Error>)
        ensures
            (match built {
                Some(c) => r matches Ok(s) && s@ == c.schema@ && final(self).connections@ == old(
                    self,
                ).connections@.insert(c.config.id@, c) && final(self).cancel_tokens@ == old(
                    self,
                ).cancel_tokens@,
                None => r matches Err(e) && e matches Error::Connect(m) && m@
                    == "Failed to connect to the database"@ && final(self).connections@ == old(
                    self,
                ).connections@ && !final(self).cancel_tokens@.contains_key(conn_id@),
            }),
    {
        match built {
            Some(conn) => {
                let schema = self.connect(conn);
                Ok(schema)
            },
            None => {
                self.cancel_token(conn_id);
                Err(Error::Connect(String::from_str("Failed to connect to the database")))
            },
        }
    }
}

} // verus!
