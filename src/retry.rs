use vstd::prelude::*;

use crate::error::Error;

verus! {

/// Deadline of the first attempt, in milliseconds.
pub const BACKOFF_TIME_MS: u64 = 100;

/// Number of attempts made before giving up.
pub const RETRY_TIMES: usize = 3;

/// Deadline of attempt number `attempt` (counted from zero): it doubles
/// with each retry.
pub open spec fn backoff_spec(attempt: nat) -> nat
    decreases attempt,
{
    if attempt == 0 {
        BACKOFF_TIME_MS as nat
    } else {
        2 * backoff_spec((attempt - 1) as nat)
    }
}

/// Sum of the deadlines of the first `n` attempts.
pub open spec fn total_backoff(n: nat) -> nat
    decreases n,
{
    if n == 0 {
        0
    } else {
        total_backoff((n - 1) as nat) + backoff_spec((n - 1) as nat)
    }
}

/// The deadlines of the attempts are 100, 200 and 400 ms, 700 ms in all.
pub proof fn lemma_backoff_schedule()
    ensures
        backoff_spec(0) == 100,
        backoff_spec(1) == 200,
        backoff_spec(2) == 400,
        total_backoff(RETRY_TIMES as nat) == 700,
{
    reveal_with_fuel(backoff_spec, 3);
    reveal_with_fuel(total_backoff, 4);
}

/// Deadline of attempt number `attempt`, in milliseconds.
pub fn backoff_ms(attempt: usize) -> (r: u64)
    requires
        attempt < RETRY_TIMES,
    ensures
        r == backoff_spec(attempt as nat),
{
    proof {
        lemma_backoff_schedule();
    }
    let mut ms: u64 = BACKOFF_TIME_MS;
    let mut i: usize = 0;
    while i < attempt
        invariant
            i <= attempt < RETRY_TIMES,
            ms == backoff_spec(i as nat),
            backoff_spec(0) == 100,
            backoff_spec(1) == 200,
            backoff_spec(2) == 400,
        decreases attempt - i,
    {
        ms = ms * 2;
        i = i + 1;
    }
    ms
}

/// Runs `attempt` with the deadlines of `backoff_spec` until one call
/// succeeds or `RETRY_TIMES` calls have failed. The first success is
/// returned as it came; after the last failure its error is returned.
pub fn retry_with_backoff<T, F: Fn(u64) -> Result<T, Error>>(attempt: &F) -> (r: Result<T, Error>)
    requires
        forall|ms: u64| attempt.requires((ms,)),
    ensures
        r is Ok ==> exists|k: nat|
            k < RETRY_TIMES && attempt.ensures((#[trigger] backoff_spec(k) as u64,), r),
        r is Err ==> attempt.ensures((backoff_spec((RETRY_TIMES - 1) as nat) as u64,), r),
{
    let mut i: usize = 0;
    loop
        invariant
            i < RETRY_TIMES,
            forall|ms: u64| attempt.requires((ms,)),
        decreases RETRY_TIMES - i,
    {
        let ms = backoff_ms(i);
        let r = attempt(ms);
        match r {
            Ok(_) => {
                assert(attempt.ensures((backoff_spec(i as nat) as u64,), r));
                return r;
            },
            Err(_) => {
                if i + 1 == RETRY_TIMES {
                    return r;
                }
            },
        }
        i = i + 1;
    }
}

/// State of one poll of a future: done with a value, not done yet, or
/// failed.
pub enum RacePoll<T> {
    Ready(T),
    Pending,
    Failed(Error),
}

/// State of one poll of the deadline timer.
#[derive(Clone, Copy, Debug, PartialEq, Eq, Structural)]
pub enum TimerPoll {
    Pending,
    Elapsed,
    Failed,
}

/// A request raced against a deadline timer. A success of the request
/// before the deadline wins at once; a failure of the request is put aside
/// and the race waits for the timer, which then ends it with `Timeout`.
pub struct Timeout {
    pub timeout_ms: u64,
    pub waiting_on_future: bool,
}

impl Timeout {
    /// A race with a deadline of `timeout_ms` that still listens to the
    /// request.
    pub fn new(timeout_ms: u64) -> (r: Timeout)
        ensures
            r.timeout_ms == timeout_ms,
            r.waiting_on_future,
    {
        Timeout { timeout_ms, waiting_on_future: true }
    }

    /// One poll of the race, given the poll of the request and that of the
    /// timer. The request's poll is read only while the race still listens
    /// to it.
    pub fn poll<T>(&mut self, rpc: RacePoll<T>, timer: TimerPoll) -> (r: RacePoll<T>)
        ensures
            final(self).timeout_ms == old(self).timeout_ms,
            old(self).waiting_on_future && rpc is Ready ==> r == rpc && *final(self) == *old(self),
            !(old(self).waiting_on_future && rpc is Ready) ==> {
                &&& final(self).waiting_on_future == (old(self).waiting_on_future && rpc is Pending)
                &&& timer == TimerPoll::Pending ==> r is Pending
                &&& timer == TimerPoll::Elapsed ==> r == RacePoll::<T>::Failed(Error::Timeout)
                &&& timer == TimerPoll::Failed ==> r is Failed && r->Failed_0 is Other
            },
    {
        if self.waiting_on_future {
            match rpc {
                RacePoll::Ready(v) => {
                    return RacePoll::Ready(v);
                },
                RacePoll::Pending => {},
                RacePoll::Failed(_) => {
                    self.waiting_on_future = false;
                },
            }
        }
        match timer {
            TimerPoll::Pending => RacePoll::Pending,
            TimerPoll::Elapsed => RacePoll::Failed(Error::Timeout),
            TimerPoll::Failed => RacePoll::Failed(Error::Other("timeout error".to_owned())),
        }
    }
}

} // verus!
