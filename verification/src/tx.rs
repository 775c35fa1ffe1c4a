use vstd::prelude::*;

verus! {

/// What the transaction driver tells the database to do next.
#[derive(Clone, Copy, Debug, PartialEq, Eq, Structural)]
pub enum TxAction {
    /// Run the statement at this position.
    Execute { idx: usize },
    /// Every statement ran clean: make the transaction's effects visible.
    Commit,
    /// A statement failed: undo everything, leaving the database as if none
    /// of the statements ran.
    Rollback,
}

/// The transaction driver's next step, given how many statements there are,
/// how many have run, and whether the last one failed. The contract is the
/// all-or-nothing rule: after any failure the only action is `Rollback`,
/// and `Commit` is issued only once every statement has run without one —
/// so no partially applied transaction is ever made visible.
pub fn tx_next(n: usize, idx: usize, failed: bool) -> (r: TxAction)
    requires
        idx <= n,
    ensures
        failed ==> r == TxAction::Rollback,
        !failed && idx < n ==> r == (TxAction::Execute { idx }),
        !failed && idx == n ==> r == TxAction::Commit,
{
    if failed {
        TxAction::Rollback
    } else if idx < n {
        TxAction::Execute { idx }
    } else {
        TxAction::Commit
    }
}

/// The position of the first failing statement under the given outcomes.
pub open spec fn spec_first_failure(outcomes: Seq<bool>) -> Option<int>
    decreases outcomes.len(),
{
    if outcomes.len() == 0 {
        None
    } else if !outcomes[0] {
        Some(0)
    } else {
        match spec_first_failure(outcomes.drop_first()) {
            Some(i) => Some(i + 1),
            None => None,
        }
    }
}

/// Replays a transaction's statement outcomes through the driver and
/// reports what the database was told: how many statements were attempted,
/// and whether the transaction was committed. With no failure every
/// statement runs and the transaction commits; with a first failure at `i`,
/// exactly the statements up to and including `i` were attempted and the
/// transaction was rolled back, never committed.
pub fn drive_tx(outcomes: &Vec<bool>) -> (r: (usize, bool))
    ensures
        (match spec_first_failure(outcomes@) {
            None => r.0 == outcomes@.len() && r.1 == true,
            Some(i) => r.0 == i + 1 && r.1 == false,
        }),
{
    let n = outcomes.len();
    let mut idx: usize = 0;
    let mut failed = false;
    loop
        invariant
            n == outcomes@.len(),
            idx <= n,
            !failed ==> spec_first_failure(outcomes@.take(idx as int)) is None,
            failed ==> idx >= 1 && spec_first_failure(outcomes@) == Some(idx - 1 as int),
        decreases n - idx, (if failed { 0 as int } else { 1 as int }),
    {
        let action = tx_next(n, idx, failed);
        match action {
            TxAction::Execute { idx: i } => {
                let ok = outcomes[i];
                proof {
                    lemma_first_failure_step(outcomes@, idx as int, ok);
                }
                idx = idx + 1;
                if !ok {
                    failed = true;
                }
            },
            TxAction::Commit => {
                proof {
                    assert(outcomes@.take(n as int) =~= outcomes@);
                }
                return (idx, true);
            },
            TxAction::Rollback => {
                return (idx, false);
            },
        }
    }
}

/// Extending a failure-free prefix by one outcome: a clean statement keeps
/// it failure-free, and a failing one makes it the first failure of the
/// whole run.
proof fn lemma_first_failure_step(outcomes: Seq<bool>, idx: int, ok: bool)
    requires
        0 <= idx < outcomes.len(),
        outcomes[idx] == ok,
        spec_first_failure(outcomes.take(idx)) is None,
    ensures
        ok ==> spec_first_failure(outcomes.take(idx + 1)) is None,
        !ok ==> spec_first_failure(outcomes) == Some(idx),
    decreases idx,
{
    if idx == 0 {
        if ok {
            lemma_first_failure_all_clean(outcomes.take(1));
        }
    } else {
        assert(outcomes.take(idx).drop_first() =~= outcomes.drop_first().take(idx - 1));
        assert(outcomes.take(idx + 1).drop_first() =~= outcomes.drop_first().take(idx));
        assert(outcomes.take(idx)[0] == outcomes[0]);
        assert(outcomes[0]) by {
            if !outcomes[0] {
                assert(spec_first_failure(outcomes.take(idx)) is Some);
            }
        }
        lemma_first_failure_step(outcomes.drop_first(), idx - 1, ok);
        if ok {
            assert(spec_first_failure(outcomes.take(idx + 1)) is None);
        }
    }
}

/// A sequence whose every element holds has no first failure.
proof fn lemma_first_failure_all_clean(outcomes: Seq<bool>)
    requires
        forall|i: int| 0 <= i < outcomes.len() ==> outcomes[i],
    ensures
        spec_first_failure(outcomes) is None,
    decreases outcomes.len(),
{
    if outcomes.len() > 0 {
        assert(forall|i: int|
            0 <= i < outcomes.len() - 1 ==> outcomes.drop_first()[i] == outcomes[i + 1]);
        lemma_first_failure_all_clean(outcomes.drop_first());
    }
}

} // verus!
