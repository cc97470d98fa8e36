use vstd::prelude::*;

use crate::error::Error;
use crate::txn::Transaction;

verus! {

/// Where a commit stands.
#[derive(Clone, Copy, Debug, PartialEq, Eq, Structural)]
pub enum Phase {
    /// Locking the writes one by one, the primary (index 0) first.
    Prewriting,
    /// Waiting for the commit timestamp.
    GettingCommitTs,
    /// Waiting for the primary's commit record.
    CommittingPrimary,
    /// The transaction is committed; committing the other keys.
    CommittingSecondaries,
    /// The transaction failed; removing what it prewrote.
    RollingBack,
    /// Nothing is left to do.
    Finished,
}

/// What the caller must do next for a commit. An index names a buffered
/// write of the transaction.
#[derive(Clone, Copy, Debug, PartialEq, Eq, Structural)]
pub enum CommitAction {
    /// Prewrite the write at this index: lock it and store its value
    /// tentatively, with the primary key and the start timestamp.
    Prewrite(usize),
    /// Fetch a commit timestamp.
    GetCommitTs,
    /// Commit the primary key at this commit timestamp.
    CommitPrimary(u64),
    /// Commit the write at this index at this commit timestamp.
    CommitSecondary(usize, u64),
    /// Remove the lock and the tentative value of the write at this index.
    Rollback(usize),
    /// Done: whether the transaction committed.
    Finished(bool),
}

/// The control state of a commit over `n` buffered writes.
#[derive(Clone, Copy, Debug, PartialEq, Eq, Structural)]
pub struct CommitState {
    pub n: usize,
    pub start_ts: u64,
    pub phase: Phase,
    /// Index of the write that the last action was about.
    pub next: usize,
    /// While rolling back: one past the last index to roll back.
    pub upto: usize,
    pub commit_ts: u64,
    /// The primary's commit was acknowledged (or there was nothing to write).
    pub committed: bool,
}

/// The states that a commit goes through.
pub open spec fn state_wf(s: CommitState) -> bool {
    &&& (s.phase == Phase::Finished || s.n > 0)
    &&& s.phase == Phase::Prewriting ==> s.next < s.n && !s.committed
    &&& s.phase == Phase::GettingCommitTs ==> !s.committed
    &&& s.phase == Phase::CommittingPrimary ==> !s.committed && s.commit_ts > s.start_ts
    &&& s.phase == Phase::CommittingSecondaries ==> s.committed && 1 <= s.next < s.n
        && s.commit_ts > s.start_ts
    &&& s.phase == Phase::RollingBack ==> s.next < s.upto <= s.n && !s.committed
}

/// A failure of the primary's commit that shows that it did not happen:
/// its lock was found missing or taken.
pub open spec fn primary_commit_refused(e: Error) -> bool {
    e is Conflict || e is TransactionExpired
}

/// First state and action of a commit of `n` writes read at `start_ts`.
pub open spec fn start_spec(n: usize, start_ts: u64) -> (CommitState, CommitAction) {
    let s = CommitState {
        n,
        start_ts,
        phase: Phase::Prewriting,
        next: 0,
        upto: 0,
        commit_ts: 0,
        committed: false,
    };
    if n == 0 {
        (CommitState { phase: Phase::Finished, committed: true, ..s }, CommitAction::Finished(true))
    } else {
        (s, CommitAction::Prewrite(0))
    }
}

/// Start of a rollback of the writes below `upto`.
pub open spec fn rollback_from(s: CommitState, upto: usize) -> (CommitState, CommitAction) {
    (CommitState { phase: Phase::RollingBack, next: 0, upto, ..s }, CommitAction::Rollback(0))
}

/// The next state and action, given the outcome of the last action. A
/// successful outcome carries the fetched timestamp where the action
/// fetched one.
pub open spec fn step_spec(s: CommitState, outcome: Result<u64, Error>) -> (
    CommitState,
    CommitAction,
) {
    match s.phase {
        Phase::Prewriting => match outcome {
            Ok(_) => if s.next + 1 < s.n {
                (
                    CommitState { next: (s.next + 1) as usize, ..s },
                    CommitAction::Prewrite((s.next + 1) as usize),
                )
            } else {
                (CommitState { phase: Phase::GettingCommitTs, ..s }, CommitAction::GetCommitTs)
            },
            Err(_) => rollback_from(s, (s.next + 1) as usize),
        },
        Phase::GettingCommitTs => match outcome {
            Ok(ts) => if ts > s.start_ts {
                (
                    CommitState { phase: Phase::CommittingPrimary, commit_ts: ts, ..s },
                    CommitAction::CommitPrimary(ts),
                )
            } else {
                rollback_from(s, s.n)
            },
            Err(_) => rollback_from(s, s.n),
        },
        Phase::CommittingPrimary => match outcome {
            Ok(_) => if s.n > 1 {
                (
                    CommitState {
                        phase: Phase::CommittingSecondaries,
                        next: 1,
                        committed: true,
                        ..s
                    },
                    CommitAction::CommitSecondary(1, s.commit_ts),
                )
            } else {
                (
                    CommitState { phase: Phase::Finished, committed: true, ..s },
                    CommitAction::Finished(true),
                )
            },
            Err(e) => if primary_commit_refused(e) {
                rollback_from(s, s.n)
            } else {
                (CommitState { phase: Phase::Finished, ..s }, CommitAction::Finished(false))
            },
        },
        Phase::CommittingSecondaries => if s.next + 1 < s.n {
            (
                CommitState { next: (s.next + 1) as usize, ..s },
                CommitAction::CommitSecondary((s.next + 1) as usize, s.commit_ts),
            )
        } else {
            (CommitState { phase: Phase::Finished, ..s }, CommitAction::Finished(true))
        },
        Phase::RollingBack => if s.next + 1 < s.upto {
            (
                CommitState { next: (s.next + 1) as usize, ..s },
                CommitAction::Rollback((s.next + 1) as usize),
            )
        } else {
            (CommitState { phase: Phase::Finished, ..s }, CommitAction::Finished(false))
        },
        Phase::Finished => (s, CommitAction::Finished(s.committed)),
    }
}

/// The actions that follow from feeding `outcomes` one by one, up to and
/// including the one that finishes.
pub open spec fn run_spec(s: CommitState, outcomes: Seq<Result<u64, Error>>) -> Seq<CommitAction>
    decreases outcomes.len(),
{
    if outcomes.len() == 0 || s.phase == Phase::Finished {
        Seq::empty()
    } else {
        let (s2, a) = step_spec(s, outcomes[0]);
        seq![a] + run_spec(s2, outcomes.drop_first())
    }
}

/// Every step keeps a commit in its well-formed states.
pub proof fn lemma_step_wf(s: CommitState, outcome: Result<u64, Error>)
    requires
        state_wf(s),
    ensures
        state_wf(step_spec(s, outcome).0),
{
}

/// No key other than the primary is committed before the primary's commit
/// was acknowledged: a step that asks to commit a secondary key starts
/// from a state whose primary is committed, or answers the primary's
/// successful commit.
pub proof fn lemma_secondary_after_primary(s: CommitState, outcome: Result<u64, Error>)
    requires
        state_wf(s),
    ensures
        step_spec(s, outcome).1 is CommitSecondary ==> step_spec(s, outcome).0.committed && (
        s.committed || (s.phase == Phase::CommittingPrimary && outcome is Ok)),
        step_spec(s, outcome).1 is CommitSecondary ==> step_spec(s, outcome).1->CommitSecondary_1
            == s.commit_ts && s.commit_ts > s.start_ts,
        step_spec(s, outcome).0.committed ==> s.committed || (s.phase == Phase::CommittingPrimary
            && outcome is Ok),
{
}

/// A run has at most one action per outcome.
pub proof fn lemma_run_len(s: CommitState, outcomes: Seq<Result<u64, Error>>)
    ensures
        run_spec(s, outcomes).len() <= outcomes.len(),
    decreases outcomes.len(),
{
    if outcomes.len() > 0 && s.phase != Phase::Finished {
        lemma_run_len(step_spec(s, outcomes[0]).0, outcomes.drop_first());
    }
}

/// Run-level form of `lemma_secondary_after_primary`: each action of a run
/// that commits a secondary key is preceded by a `CommitPrimary` action of
/// the same run whose outcome was a success, unless the run starts after
/// the primary was committed or with the primary's commit pending.
pub proof fn lemma_run_secondary_after_primary(s: CommitState, outcomes: Seq<Result<u64, Error>>)
    requires
        state_wf(s),
    ensures
        forall|k: int|
            0 <= k < run_spec(s, outcomes).len() && (#[trigger] run_spec(s, outcomes)[k]) is CommitSecondary
                ==> s.committed || (s.phase == Phase::CommittingPrimary && outcomes[0] is Ok) || exists|j: int|
                0 <= j < k && run_spec(s, outcomes)[j] is CommitPrimary && (#[trigger] outcomes[j + 1]) is Ok,
    decreases outcomes.len(),
{
    if outcomes.len() == 0 || s.phase == Phase::Finished {
        return;
    }
    let (s2, a) = step_spec(s, outcomes[0]);
    let rest = outcomes.drop_first();
    let run = run_spec(s, outcomes);
    let run2 = run_spec(s2, rest);
    assert(run == seq![a] + run2);
    lemma_step_wf(s, outcomes[0]);
    lemma_secondary_after_primary(s, outcomes[0]);
    lemma_run_secondary_after_primary(s2, rest);
    lemma_run_len(s2, rest);
    assert forall|k: int|
        0 <= k < run.len() && (#[trigger] run[k]) is CommitSecondary implies s.committed || (s.phase
            == Phase::CommittingPrimary && outcomes[0] is Ok) || exists|j: int|
            0 <= j < k && run[j] is CommitPrimary && (#[trigger] outcomes[j + 1]) is Ok by {
        if k > 0 {
            assert(run[k] == run2[k - 1]);
            if s2.committed {
            } else if s2.phase == Phase::CommittingPrimary && rest[0] is Ok {
                assert(run[0] is CommitPrimary);
                assert(outcomes[1int] == rest[0]);
            } else {
                let j2 = choose|j: int|
                    0 <= j < k - 1 && run2[j] is CommitPrimary && (#[trigger] rest[j + 1]) is Ok;
                assert(run[j2 + 1] == run2[j2]);
                assert(outcomes[(j2 + 1) + 1] == rest[j2 + 1]);
            }
        }
    }
}

/// No key other than the primary is committed before the primary: in the
/// run of a commit from its start, every action that commits a secondary
/// key is preceded by the `CommitPrimary` action, whose outcome was a
/// success.
pub proof fn lemma_commit_secondaries_after_primary(
    n: usize,
    start_ts: u64,
    outcomes: Seq<Result<u64, Error>>,
)
    ensures
        forall|k: int|
            0 <= k < run_spec(start_spec(n, start_ts).0, outcomes).len() && (#[trigger] run_spec(
                start_spec(n, start_ts).0,
                outcomes,
            )[k]) is CommitSecondary ==> exists|j: int|
                0 <= j < k && run_spec(start_spec(n, start_ts).0, outcomes)[j] is CommitPrimary
                    && (#[trigger] outcomes[j + 1]) is Ok,
{
    lemma_run_secondary_after_primary(start_spec(n, start_ts).0, outcomes);
}

/// A rollback in progress goes on to the end of its range, one index per
/// outcome, whatever the outcomes are, and then finishes as failed.
pub proof fn lemma_rollback_run(s: CommitState, outcomes: Seq<Result<u64, Error>>)
    requires
        state_wf(s),
        s.phase == Phase::RollingBack,
        outcomes.len() == s.upto - s.next,
    ensures
        run_spec(s, outcomes).len() == outcomes.len(),
        forall|k: int|
            0 <= k < outcomes.len() - 1 ==> #[trigger] run_spec(s, outcomes)[k]
                == CommitAction::Rollback((s.next + 1 + k) as usize),
        run_spec(s, outcomes)[outcomes.len() - 1] == CommitAction::Finished(false),
    decreases outcomes.len(),
{
    let (s2, a) = step_spec(s, outcomes[0]);
    if s.next + 1 < s.upto {
        lemma_rollback_run(s2, outcomes.drop_first());
        assert forall|k: int| 0 <= k < outcomes.len() - 1 implies #[trigger] run_spec(
            s,
            outcomes,
        )[k] == CommitAction::Rollback((s.next + 1 + k) as usize) by {
            if k > 0 {
                assert(run_spec(s, outcomes)[k] == run_spec(s2, outcomes.drop_first())[k - 1]);
            }
        }
    } else {
        assert(run_spec(s2, outcomes.drop_first()) =~= Seq::<CommitAction>::empty());
    }
}

/// A transaction whose prewrite of index `i` fails rolls back every write
/// it may have locked, indices 0 to `i`, and finishes as failed: after the
/// failure, `i + 1` further outcomes of any kind give the actions
/// `Rollback(0)`, ..., `Rollback(i)` and then `Finished(false)`.
pub proof fn lemma_prewrite_failure_rolls_back(
    s: CommitState,
    e: Error,
    rest: Seq<Result<u64, Error>>,
)
    requires
        state_wf(s),
        s.phase == Phase::Prewriting,
        rest.len() == s.next + 1,
    ensures
        run_spec(s, seq![Err(e)] + rest).len() == s.next + 2,
        forall|k: int|
            0 <= k <= s.next ==> #[trigger] run_spec(s, seq![Err(e)] + rest)[k]
                == CommitAction::Rollback(k as usize),
        run_spec(s, seq![Err(e)] + rest)[s.next + 1] == CommitAction::Finished(false),
{
    let os = seq![Err(e)] + rest;
    let (s2, a) = step_spec(s, os[0]);
    assert(os.drop_first() =~= rest);
    lemma_rollback_run(s2, rest);
    assert forall|k: int| 0 <= k <= s.next implies #[trigger] run_spec(s, os)[k]
        == CommitAction::Rollback(k as usize) by {
        if k > 0 {
            assert(run_spec(s, os)[k] == run_spec(s2, rest)[k - 1]);
        }
    }
}

/// A commit in progress: the transaction it commits, its control state and
/// the error that made it fail, if any.
pub struct Committer {
    txn: Transaction,
    state: CommitState,
    error: Option<Error>,
}

impl Committer {
    pub closed spec fn txn_spec(&self) -> Transaction {
        self.txn
    }

    pub closed spec fn state_spec(&self) -> CommitState {
        self.state
    }

    pub closed spec fn error_spec(&self) -> Option<Error> {
        self.error
    }

    /// The control state describes the transaction's writes, and a failed
    /// commit holds its error.
    pub open spec fn wf(&self) -> bool {
        &&& state_wf(self.state_spec())
        &&& self.txn_spec().wf()
        &&& self.state_spec().n == self.txn_spec().writes_view().len()
        &&& self.state_spec().start_ts == self.txn_spec().start_ts_spec()
        &&& (self.state_spec().phase == Phase::RollingBack || (self.state_spec().phase
            == Phase::Finished && !self.state_spec().committed)) ==> self.error_spec() is Some
    }

    /// Starts the commit of `txn`, and gives the first action.
    pub fn start(txn: Transaction) -> (r: (Committer, CommitAction))
        requires
            txn.wf(),
        ensures
            r.0.wf(),
            r.0.txn_spec() == txn,
            (r.0.state_spec(), r.1) == start_spec(txn.writes_view().len() as usize, txn.start_ts_spec()),
            r.0.error_spec() is None,
    {
        let n = txn.len();
        let start_ts = txn.start_ts();
        let s = CommitState {
            n,
            start_ts,
            phase: Phase::Prewriting,
            next: 0,
            upto: 0,
            commit_ts: 0,
            committed: false,
        };
        if n == 0 {
            let s = CommitState { phase: Phase::Finished, committed: true, ..s };
            (Committer { txn, state: s, error: None }, CommitAction::Finished(true))
        } else {
            (Committer { txn, state: s, error: None }, CommitAction::Prewrite(0))
        }
    }

    /// The transaction being committed.
    pub fn transaction(&self) -> (r: &Transaction)
        ensures
            *r == self.txn_spec(),
    {
        &self.txn
    }

    /// The control state.
    pub fn state(&self) -> (r: CommitState)
        ensures
            r == self.state_spec(),
    {
        self.state
    }

    /// Takes the outcome of the last action and gives the next action. A
    /// failed prewrite, a failed fetch of the commit timestamp and a failed
    /// primary commit keep their error; a commit timestamp that is not above
    /// the start timestamp fails the commit with `Other`.
    pub fn step(&mut self, outcome: Result<u64, Error>) -> (r: CommitAction)
        requires
            old(self).wf(),
            old(self).state_spec().phase != Phase::Finished,
        ensures
            final(self).wf(),
            final(self).txn_spec() == old(self).txn_spec(),
            (final(self).state_spec(), r) == step_spec(old(self).state_spec(), outcome),
            ({
                let ph = old(self).state_spec().phase;
                if outcome is Err && (ph == Phase::Prewriting || ph == Phase::GettingCommitTs || ph
                    == Phase::CommittingPrimary) {
                    final(self).error_spec() == Some(outcome->Err_0)
                } else if ph == Phase::GettingCommitTs && outcome is Ok && outcome->Ok_0
                    <= old(self).state_spec().start_ts {
                    final(self).error_spec() is Some && final(self).error_spec()->0 is Other
                } else {
                    final(self).error_spec() == old(self).error_spec()
                }
            }),
    {
        let s = self.state;
        match s.phase {
            Phase::Prewriting => match outcome {
                Ok(_) => {
                    if s.next + 1 < s.n {
                        self.state = CommitState { next: s.next + 1, ..s };
                        CommitAction::Prewrite(s.next + 1)
                    } else {
                        self.state = CommitState { phase: Phase::GettingCommitTs, ..s };
                        CommitAction::GetCommitTs
                    }
                },
                Err(e) => {
                    self.error = Some(e);
                    self.begin_rollback(s.next + 1)
                },
            },
            Phase::GettingCommitTs => match outcome {
                Ok(ts) => {
                    if ts > s.start_ts {
                        self.state = CommitState {
                            phase: Phase::CommittingPrimary,
                            commit_ts: ts,
                            ..s
                        };
                        CommitAction::CommitPrimary(ts)
                    } else {
                        self.error = Some(
                            Error::Other("commit timestamp is not after the start timestamp".to_owned()),
                        );
                        self.begin_rollback(s.n)
                    }
                },
                Err(e) => {
                    self.error = Some(e);
                    self.begin_rollback(s.n)
                },
            },
            Phase::CommittingPrimary => match outcome {
                Ok(_) => {
                    if s.n > 1 {
                        self.state = CommitState {
                            phase: Phase::CommittingSecondaries,
                            next: 1,
                            committed: true,
                            ..s
                        };
                        CommitAction::CommitSecondary(1, s.commit_ts)
                    } else {
                        self.state = CommitState { phase: Phase::Finished, committed: true, ..s };
                        CommitAction::Finished(true)
                    }
                },
                Err(e) => {
                    let refused = match e {
                        Error::Conflict | Error::TransactionExpired => true,
                        _ => false,
                    };
                    self.error = Some(e);
                    if refused {
                        self.begin_rollback(s.n)
                    } else {
                        self.state = CommitState { phase: Phase::Finished, ..s };
                        CommitAction::Finished(false)
                    }
                },
            },
            Phase::CommittingSecondaries => {
                if s.next + 1 < s.n {
                    self.state = CommitState { next: s.next + 1, ..s };
                    CommitAction::CommitSecondary(s.next + 1, s.commit_ts)
                } else {
                    self.state = CommitState { phase: Phase::Finished, ..s };
                    CommitAction::Finished(true)
                }
            },
            Phase::RollingBack => {
                if s.next + 1 < s.upto {
                    self.state = CommitState { next: s.next + 1, ..s };
                    CommitAction::Rollback(s.next + 1)
                } else {
                    self.state = CommitState { phase: Phase::Finished, ..s };
                    CommitAction::Finished(false)
                }
            },
            Phase::Finished => CommitAction::Finished(s.committed),
        }
    }

    fn begin_rollback(&mut self, upto: usize) -> (r: CommitAction)
        requires
            0 < upto <= old(self).state_spec().n,
        ensures
            (final(self).state_spec(), r) == rollback_from(old(self).state_spec(), upto),
            final(self).txn_spec() == old(self).txn_spec(),
            final(self).error_spec() == old(self).error_spec(),
    {
        self.state = CommitState { phase: Phase::RollingBack, next: 0, upto, ..self.state };
        CommitAction::Rollback(0)
    }

    /// The result of a finished commit: `Ok(true)` once the primary was
    /// committed, otherwise the error that made it fail.
    pub fn into_result(self) -> (r: Result<bool, Error>)
        requires
            self.wf(),
            self.state_spec().phase == Phase::Finished,
        ensures
            self.state_spec().committed ==> r == Ok::<bool, Error>(true),
            !self.state_spec().committed ==> r == Err::<bool, Error>(self.error_spec()->0),
    {
        if self.state.committed {
            Ok(true)
        } else {
            match self.error {
                Some(e) => Err(e),
                None => Ok(false),
            }
        }
    }
}

} // verus!
