use vstd::prelude::*;

use crate::commit::{start_spec, CommitAction, Committer};
use crate::error::Error;
use crate::retry::{backoff_spec, retry_with_backoff, RETRY_TIMES};
use crate::txn::{has_key, Transaction};

verus! {

/// The client of one transaction at a time: it fetches timestamps, buffers
/// the writes of the open transaction and hands it to a `Committer`.
pub struct Client {
    txn: Option<Transaction>,
}

impl Client {
    /// The open transaction, if any.
    pub closed spec fn txn_spec(&self) -> Option<Transaction> {
        self.txn
    }

    pub open spec fn wf(&self) -> bool {
        self.txn_spec() is Some ==> self.txn_spec()->0.wf()
    }

    /// A client with no open transaction.
    pub fn new() -> (r: Client)
        ensures
            r.wf(),
            r.txn_spec() is None,
    {
        Client { txn: None }
    }

    /// Gets a timestamp: `attempt(ms)` asks the oracle once with a deadline
    /// of `ms`, and is retried with the deadlines of `backoff_spec`. The
    /// first timestamp that comes back is returned unchanged; after the last
    /// failure its error is returned.
    pub fn get_timestamp<F: Fn(u64) -> Result<u64, Error>>(&self, attempt: &F) -> (r: Result<
        u64,
        Error,
    >)
        requires
            forall|ms: u64| attempt.requires((ms,)),
        ensures
            r is Ok ==> exists|k: nat|
                k < RETRY_TIMES && attempt.ensures((#[trigger] backoff_spec(k) as u64,), r),
            r is Err ==> attempt.ensures((backoff_spec((RETRY_TIMES - 1) as nat) as u64,), r),
    {
        retry_with_backoff(attempt)
    }

    /// Opens a transaction that reads the snapshot at `start_ts`; an open
    /// transaction is dropped.
    pub fn begin(&mut self, start_ts: u64)
        ensures
            final(self).wf(),
            final(self).txn_spec() is Some,
            final(self).txn_spec()->0.start_ts_spec() == start_ts,
            final(self).txn_spec()->0.writes_view().len() == 0,
    {
        self.txn = Some(Transaction::new(start_ts));
    }

    /// Whether a transaction is open.
    pub fn in_transaction(&self) -> (r: bool)
        ensures
            r == self.txn_spec() is Some,
    {
        self.txn.is_some()
    }

    /// Start timestamp of the open transaction.
    pub fn start_ts(&self) -> (r: u64)
        requires
            self.txn_spec() is Some,
        ensures
            r == self.txn_spec()->0.start_ts_spec(),
    {
        match &self.txn {
            Some(t) => t.start_ts(),
            None => 0,
        }
    }

    /// The value that the open transaction buffered for `key`, read with no
    /// request to storage. `None` means that the key must be read from
    /// storage at the start timestamp, through a `Reader`.
    pub fn get(&self, key: &Vec<u8>) -> (r: Option<Vec<u8>>)
        requires
            self.wf(),
            self.txn_spec() is Some,
        ensures
            r is Some <==> has_key(self.txn_spec()->0.writes_view(), key@),
            r is Some ==> exists|i: int|
                0 <= i < self.txn_spec()->0.writes_view().len()
                    && #[trigger] self.txn_spec()->0.writes_view()[i].0 == key@
                    && self.txn_spec()->0.writes_view()[i].1 == r->0@,
    {
        match &self.txn {
            Some(t) => t.get_buffered(key),
            None => None,
        }
    }

    /// Buffers `value` for `key` in the open transaction until commit.
    pub fn set(&mut self, key: Vec<u8>, value: Vec<u8>)
        requires
            old(self).wf(),
            old(self).txn_spec() is Some,
        ensures
            final(self).wf(),
            final(self).txn_spec() is Some,
            ({
                let w0 = old(self).txn_spec()->0.writes_view();
                let w1 = final(self).txn_spec()->0.writes_view();
                &&& final(self).txn_spec()->0.start_ts_spec() == old(
                    self,
                ).txn_spec()->0.start_ts_spec()
                &&& has_key(w0, key@) ==> exists|i: int|
                    0 <= i < w0.len() && #[trigger] w0[i].0 == key@ && w1 == w0.update(
                        i,
                        (key@, value@),
                    )
                &&& !has_key(w0, key@) ==> w1 == w0.push((key@, value@))
            }),
    {
        let t = self.txn.take();
        match t {
            Some(mut t) => {
                t.set(key, value);
                self.txn = Some(t);
            },
            None => {},
        }
    }

    /// Closes the open transaction and starts its commit: the returned
    /// `Committer` is driven with the outcome of each action until it
    /// finishes. The transaction cannot be used again.
    pub fn commit(&mut self) -> (r: (Committer, CommitAction))
        requires
            old(self).wf(),
            old(self).txn_spec() is Some,
        ensures
            final(self).wf(),
            final(self).txn_spec() is None,
            r.0.wf(),
            r.0.txn_spec() == old(self).txn_spec()->0,
            r.0.error_spec() is None,
            (r.0.state_spec(), r.1) == start_spec(
                old(self).txn_spec()->0.writes_view().len() as usize,
                old(self).txn_spec()->0.start_ts_spec(),
            ),
    {
        let t = self.txn.take();
        match t {
            Some(t) => Committer::start(t),
            None => Committer::start(Transaction::new(0)),
        }
    }
}

/// The client adds nothing to a timestamp: when every answer of the oracle
/// is above `bound` (the oracle's last issued timestamp), so is the
/// timestamp that `get_timestamp` returns.
pub proof fn lemma_timestamp_above_oracle_bound<F: Fn(u64) -> Result<u64, Error>>(
    attempt: F,
    r: Result<u64, Error>,
    bound: u64,
)
    requires
        forall|ms: u64, x: Result<u64, Error>|
            #[trigger] attempt.ensures((ms,), x) && x is Ok ==> x->Ok_0 > bound,
        r is Ok ==> exists|k: nat|
            k < RETRY_TIMES && attempt.ensures((#[trigger] backoff_spec(k) as u64,), r),
    ensures
        r is Ok ==> r->Ok_0 > bound,
{
    if r is Ok {
        let k = choose|k: nat|
            k < RETRY_TIMES && attempt.ensures((#[trigger] backoff_spec(k) as u64,), r);
        assert(attempt.ensures((backoff_spec(k) as u64,), r));
    }
}

} // verus!
