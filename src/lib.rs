//! Client side of a Percolator-style transaction protocol: timestamp
//! fetching with bounded retries, per-transaction write buffering,
//! two-phase commit anchored on a primary key, and resolution of locks
//! left behind by other transactions.
//!
//! The network stays with the caller: each part here is a state machine
//! or a function that takes what a request came back with and says what to
//! do next.

mod client;
mod commit;
mod error;
mod resolve;
mod retry;
mod txn;

pub use client::{lemma_timestamp_above_oracle_bound, Client};
pub use commit::{
    lemma_commit_secondaries_after_primary, lemma_prewrite_failure_rolls_back, lemma_rollback_run,
    lemma_run_secondary_after_primary, lemma_secondary_after_primary,
    lemma_step_wf, primary_commit_refused, rollback_from, run_spec, start_spec, state_wf,
    step_spec, CommitAction, CommitState, Committer, Phase,
};
pub use error::Error;
pub use resolve::{
    lemma_roll_forward_needs_primary_record, lock_expired, lock_expired_spec, resolution_spec,
    resolve_lock, PrimaryStatus, ReadAction, ReadReply, Reader, Resolution,
};
pub use retry::{
    backoff_ms, backoff_spec, lemma_backoff_schedule, retry_with_backoff, total_backoff, RacePoll,
    Timeout, TimerPoll, BACKOFF_TIME_MS, RETRY_TIMES,
};
pub use txn::{bytes_eq, copy_bytes, has_key, keys_unique, Transaction, WritesView};
