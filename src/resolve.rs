use vstd::prelude::*;

use crate::error::Error;
use crate::retry::{backoff_ms, backoff_spec, RETRY_TIMES};

verus! {

/// What the primary key of a lock's transaction shows about that
/// transaction.
#[derive(Clone, Copy, Debug, PartialEq, Eq, Structural)]
pub enum PrimaryStatus {
    /// The primary has a write record at this commit timestamp.
    Committed(u64),
    /// The primary was rolled back.
    RolledBack,
    /// The primary is still locked, or its lock is gone without a record.
    Pending,
}

/// How a reader deals with a lock that it found.
#[derive(Clone, Copy, Debug, PartialEq, Eq, Structural)]
pub enum Resolution {
    /// Write the missing write record at this commit timestamp.
    RollForward(u64),
    /// Erase the lock and its tentative value.
    RollBack,
    /// Leave the lock to its owner and read again later.
    Wait,
}

/// A lock taken at `lock_ts` has outlived its time to live `ttl` at `now`.
pub open spec fn lock_expired_spec(lock_ts: u64, now: u64, ttl: u64) -> bool {
    now >= lock_ts + ttl
}

/// Whether a lock taken at `lock_ts` has outlived its time to live `ttl`
/// at `now`.
pub fn lock_expired(lock_ts: u64, now: u64, ttl: u64) -> (r: bool)
    ensures
        r == lock_expired_spec(lock_ts, now, ttl),
{
    now >= lock_ts && now - lock_ts >= ttl
}

/// The resolution of a lock whose transaction's primary shows `status`:
/// a committed transaction is rolled forward, a rolled back one or one
/// whose lock expired is rolled back, and a live one is waited for.
pub open spec fn resolution_spec(status: PrimaryStatus, expired: bool) -> Resolution {
    match status {
        PrimaryStatus::Committed(ts) => Resolution::RollForward(ts),
        PrimaryStatus::RolledBack => Resolution::RollBack,
        PrimaryStatus::Pending => if expired {
            Resolution::RollBack
        } else {
            Resolution::Wait
        },
    }
}

/// Decides what to do with a lock whose primary shows `status`; `expired`
/// tells whether the lock outlived its time to live.
pub fn resolve_lock(status: PrimaryStatus, expired: bool) -> (r: Resolution)
    ensures
        r == resolution_spec(status, expired),
{
    match status {
        PrimaryStatus::Committed(ts) => Resolution::RollForward(ts),
        PrimaryStatus::RolledBack => Resolution::RollBack,
        PrimaryStatus::Pending => if expired {
            Resolution::RollBack
        } else {
            Resolution::Wait
        },
    }
}

/// A lock is rolled forward only to the commit timestamp found in its
/// primary's write record, and never while the primary is undecided.
pub proof fn lemma_roll_forward_needs_primary_record(status: PrimaryStatus, expired: bool, ts: u64)
    ensures
        resolution_spec(status, expired) == Resolution::RollForward(ts) <==> status
            == PrimaryStatus::Committed(ts),
        status == PrimaryStatus::Pending ==> !(resolution_spec(status, expired) is RollForward),
{
}

/// What a read of storage at the reader's start timestamp came back with.
pub enum ReadReply {
    /// The latest committed value at or below the start timestamp.
    Value(Vec<u8>),
    /// A lock of another transaction, with what its primary shows and
    /// whether the lock expired.
    Locked(PrimaryStatus, bool),
    /// The read failed after its retries.
    Failed(Error),
}

/// What a reader must do next.
pub enum ReadAction {
    /// Hand this value to the caller.
    Return(Vec<u8>),
    /// Roll the lock forward at this commit timestamp, then read again.
    RollForward(u64),
    /// Roll the lock back, then read again.
    RollBack,
    /// Sleep this many milliseconds, then read again.
    Wait(u64),
    /// Give this error to the caller.
    Fail(Error),
}

/// The read of one key that is not buffered: it meets locks at most
/// `RETRY_TIMES` times before it gives up with `Conflict`.
pub struct Reader {
    pub locks_met: usize,
}

impl Reader {
    pub open spec fn wf(&self) -> bool {
        self.locks_met <= RETRY_TIMES
    }

    /// A reader that has met no lock yet.
    pub fn new() -> (r: Reader)
        ensures
            r.wf(),
            r.locks_met == 0,
    {
        Reader { locks_met: 0 }
    }

    /// Takes the reply of the last read and gives the next action. A value
    /// is returned only from a read that found no lock; a lock is resolved
    /// as `resolution_spec` says, and a lock that is waited for sleeps for
    /// the backoff of this round.
    pub fn step(&mut self, reply: ReadReply) -> (r: ReadAction)
        requires
            old(self).wf(),
        ensures
            final(self).wf(),
            r is Return <==> reply is Value,
            reply is Value ==> r is Return && r->Return_0@ == reply->Value_0@ && *final(self)
                == *old(self),
            reply is Failed ==> r is Fail && r->Fail_0 == reply->Failed_0 && *final(self)
                == *old(self),
            reply is Locked && old(self).locks_met == RETRY_TIMES ==> r is Fail && r->Fail_0
                is Conflict && *final(self) == *old(self),
            reply is Locked && old(self).locks_met < RETRY_TIMES ==> {
                &&& final(self).locks_met == old(self).locks_met + 1
                &&& match resolution_spec(reply->Locked_0, reply->Locked_1) {
                    Resolution::RollForward(ts) => r is RollForward && r->RollForward_0 == ts,
                    Resolution::RollBack => r is RollBack,
                    Resolution::Wait => r is Wait && r->Wait_0 == backoff_spec(
                        old(self).locks_met as nat,
                    ),
                }
            },
    {
        match reply {
            ReadReply::Value(v) => ReadAction::Return(v),
            ReadReply::Failed(e) => ReadAction::Fail(e),
            ReadReply::Locked(status, expired) => {
                if self.locks_met == RETRY_TIMES {
                    return ReadAction::Fail(Error::Conflict);
                }
                let round = self.locks_met;
                self.locks_met = self.locks_met + 1;
                match resolve_lock(status, expired) {
                    Resolution::RollForward(ts) => ReadAction::RollForward(ts),
                    Resolution::RollBack => ReadAction::RollBack,
                    Resolution::Wait => ReadAction::Wait(backoff_ms(round)),
                }
            },
        }
    }
}

} // verus!
