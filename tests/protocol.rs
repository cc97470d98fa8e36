use std::cell::{Cell, RefCell};

use percolator::{
    backoff_ms, bytes_eq, copy_bytes, lock_expired, resolve_lock, Client, CommitAction, Error,
    Phase, PrimaryStatus, RacePoll, ReadAction, ReadReply, Reader, Resolution, Timeout,
    TimerPoll, BACKOFF_TIME_MS, RETRY_TIMES,
};

fn key(s: &str) -> Vec<u8> {
    s.as_bytes().to_vec()
}

/// Drives a commit with the given outcomes and returns the actions, the
/// first one included, and the final result.
fn drive(client: &mut Client, outcomes: Vec<Result<u64, Error>>) -> (Vec<CommitAction>, Result<bool, Error>) {
    let (mut committer, first) = client.commit();
    let mut actions = vec![first];
    let mut outcomes = outcomes.into_iter();
    while committer.state().phase != Phase::Finished {
        let outcome = outcomes.next().expect("an outcome for each action");
        actions.push(committer.step(outcome));
    }
    (actions, committer.into_result())
}

#[test]
fn backoff_doubles_from_one_hundred() {
    assert_eq!(BACKOFF_TIME_MS, 100);
    assert_eq!(RETRY_TIMES, 3);
    assert_eq!(backoff_ms(0), 100);
    assert_eq!(backoff_ms(1), 200);
    assert_eq!(backoff_ms(2), 400);
}

#[test]
fn race_success_before_deadline_wins() {
    let mut t = Timeout::new(100);
    assert!(matches!(t.poll(RacePoll::Pending, TimerPoll::Pending), RacePoll::<u64>::Pending));
    assert!(matches!(t.poll(RacePoll::Ready(42u64), TimerPoll::Pending), RacePoll::Ready(42)));
    assert!(t.waiting_on_future);
}

#[test]
fn race_error_waits_for_deadline() {
    let mut t = Timeout::new(100);
    let early = t.poll(RacePoll::<u64>::Failed(Error::Rpc("refused".to_string())), TimerPoll::Pending);
    assert!(matches!(early, RacePoll::Pending));
    assert!(!t.waiting_on_future);
    // a late success of the request no longer counts
    assert!(matches!(t.poll(RacePoll::Ready(7u64), TimerPoll::Pending), RacePoll::Pending));
    match t.poll(RacePoll::<u64>::Pending, TimerPoll::Elapsed) {
        RacePoll::Failed(e) => assert_eq!(e, Error::Timeout),
        _ => panic!("the deadline must end the race"),
    }
}

#[test]
fn race_timer_failure_is_other() {
    let mut t = Timeout::new(100);
    match t.poll(RacePoll::<u64>::Pending, TimerPoll::Failed) {
        RacePoll::Failed(Error::Other(_)) => {},
        _ => panic!("a timer failure is reported as Other"),
    }
}

#[test]
fn healthy_oracle_gives_three_increasing_timestamps() {
    let next = Cell::new(10u64);
    let calls = Cell::new(0usize);
    let oracle = |_ms: u64| -> Result<u64, Error> {
        calls.set(calls.get() + 1);
        let ts = next.get();
        next.set(ts + 1);
        Ok(ts)
    };
    let client = Client::new();
    let a = client.get_timestamp(&oracle).unwrap();
    let b = client.get_timestamp(&oracle).unwrap();
    let c = client.get_timestamp(&oracle).unwrap();
    assert_eq!((a, b, c), (10, 11, 12));
    assert!(a < b && b < c);
    assert_eq!(calls.get(), 3);
}

#[test]
fn timestamps_increase_across_clients() {
    let next = Cell::new(1u64);
    let oracle = |_ms: u64| -> Result<u64, Error> {
        let ts = next.get();
        next.set(ts + 1);
        Ok(ts)
    };
    let one = Client::new();
    let two = Client::new();
    let mut last = 0u64;
    for i in 0..6 {
        let ts = if i % 2 == 0 { one.get_timestamp(&oracle) } else { two.get_timestamp(&oracle) };
        let ts = ts.unwrap();
        assert!(ts > last);
        last = ts;
    }
}

#[test]
fn unreachable_oracle_fails_after_three_deadlines() {
    let deadlines = RefCell::new(Vec::new());
    let oracle = |ms: u64| -> Result<u64, Error> {
        deadlines.borrow_mut().push(ms);
        Err(Error::Timeout)
    };
    let client = Client::new();
    let r = client.get_timestamp(&oracle);
    assert_eq!(r, Err(Error::Timeout));
    assert_eq!(*deadlines.borrow(), vec![100, 200, 400]);
    assert_eq!(deadlines.borrow().iter().sum::<u64>(), 700);
}

#[test]
fn oracle_returns_last_error() {
    let calls = Cell::new(0u64);
    let oracle = |_ms: u64| -> Result<u64, Error> {
        calls.set(calls.get() + 1);
        if calls.get() < 3 {
            Err(Error::Timeout)
        } else {
            Err(Error::Rpc("connection reset".to_string()))
        }
    };
    let r = Client::new().get_timestamp(&oracle);
    assert_eq!(r, Err(Error::Rpc("connection reset".to_string())));
}

#[test]
fn oracle_recovers_on_second_attempt() {
    let deadlines = RefCell::new(Vec::new());
    let oracle = |ms: u64| -> Result<u64, Error> {
        deadlines.borrow_mut().push(ms);
        if ms == 100 { Err(Error::Timeout) } else { Ok(55) }
    };
    assert_eq!(Client::new().get_timestamp(&oracle), Ok(55));
    assert_eq!(*deadlines.borrow(), vec![100, 200]);
}

#[test]
fn conflicting_prewrite_rolls_back_and_aborts() {
    let mut client = Client::new();
    client.begin(10);
    client.set(key("A"), key("a1"));
    client.set(key("B"), key("b1"));
    let (actions, result) = drive(&mut client, vec![Ok(0), Err(Error::Conflict), Ok(0), Ok(0)]);
    assert_eq!(
        actions,
        vec![
            CommitAction::Prewrite(0),
            CommitAction::Prewrite(1),
            CommitAction::Rollback(0),
            CommitAction::Rollback(1),
            CommitAction::Finished(false),
        ]
    );
    assert_eq!(result, Err(Error::Conflict));
    assert!(!client.in_transaction());
}

#[test]
fn failing_primary_prewrite_rolls_back_primary() {
    let mut client = Client::new();
    client.begin(10);
    client.set(key("A"), key("a1"));
    client.set(key("B"), key("b1"));
    client.set(key("C"), key("c1"));
    let (actions, result) = drive(&mut client, vec![Err(Error::Timeout), Ok(0)]);
    assert_eq!(
        actions,
        vec![CommitAction::Prewrite(0), CommitAction::Rollback(0), CommitAction::Finished(false)]
    );
    assert_eq!(result, Err(Error::Timeout));
}

#[test]
fn successful_commit_commits_primary_before_secondaries() {
    let mut client = Client::new();
    client.begin(10);
    client.set(key("A"), key("a1"));
    client.set(key("B"), key("b1"));
    client.set(key("C"), key("c1"));
    let (actions, result) = drive(
        &mut client,
        vec![Ok(0), Ok(0), Ok(0), Ok(20), Ok(0), Err(Error::Timeout), Ok(0)],
    );
    assert_eq!(
        actions,
        vec![
            CommitAction::Prewrite(0),
            CommitAction::Prewrite(1),
            CommitAction::Prewrite(2),
            CommitAction::GetCommitTs,
            CommitAction::CommitPrimary(20),
            CommitAction::CommitSecondary(1, 20),
            CommitAction::CommitSecondary(2, 20),
            CommitAction::Finished(true),
        ]
    );
    // a failed secondary commit is not the caller's concern
    assert_eq!(result, Ok(true));
}

#[test]
fn prewrite_carries_the_primary_key() {
    let mut client = Client::new();
    client.begin(3);
    client.set(key("P"), key("1"));
    client.set(key("S"), key("2"));
    let (committer, first) = client.commit();
    assert_eq!(first, CommitAction::Prewrite(0));
    let (primary, value) = committer.transaction().write_at(0);
    assert_eq!(*primary, key("P"));
    assert_eq!(*value, key("1"));
    assert_eq!(committer.transaction().start_ts(), 3);
    assert_eq!(committer.state().n, 2);
}

#[test]
fn single_key_commit() {
    let mut client = Client::new();
    client.begin(5);
    client.set(key("K"), key("v"));
    let (actions, result) = drive(&mut client, vec![Ok(0), Ok(6), Ok(0)]);
    assert_eq!(
        actions,
        vec![
            CommitAction::Prewrite(0),
            CommitAction::GetCommitTs,
            CommitAction::CommitPrimary(6),
            CommitAction::Finished(true),
        ]
    );
    assert_eq!(result, Ok(true));
}

#[test]
fn empty_commit_succeeds_at_once() {
    let mut client = Client::new();
    client.begin(5);
    let (actions, result) = drive(&mut client, vec![]);
    assert_eq!(actions, vec![CommitAction::Finished(true)]);
    assert_eq!(result, Ok(true));
}

#[test]
fn stale_commit_timestamp_aborts() {
    let mut client = Client::new();
    client.begin(50);
    client.set(key("A"), key("1"));
    client.set(key("B"), key("2"));
    let (actions, result) = drive(&mut client, vec![Ok(0), Ok(0), Ok(50), Ok(0), Ok(0)]);
    assert_eq!(
        actions,
        vec![
            CommitAction::Prewrite(0),
            CommitAction::Prewrite(1),
            CommitAction::GetCommitTs,
            CommitAction::Rollback(0),
            CommitAction::Rollback(1),
            CommitAction::Finished(false),
        ]
    );
    assert!(matches!(result, Err(Error::Other(_))));
}

#[test]
fn failed_commit_timestamp_fetch_aborts() {
    let mut client = Client::new();
    client.begin(50);
    client.set(key("A"), key("1"));
    let (actions, result) = drive(&mut client, vec![Ok(0), Err(Error::Timeout), Ok(0)]);
    assert_eq!(
        actions,
        vec![
            CommitAction::Prewrite(0),
            CommitAction::GetCommitTs,
            CommitAction::Rollback(0),
            CommitAction::Finished(false),
        ]
    );
    assert_eq!(result, Err(Error::Timeout));
}

#[test]
fn expired_primary_rolls_back_everything() {
    let mut client = Client::new();
    client.begin(50);
    client.set(key("A"), key("1"));
    client.set(key("B"), key("2"));
    let (actions, result) =
        drive(&mut client, vec![Ok(0), Ok(0), Ok(60), Err(Error::TransactionExpired), Ok(0), Ok(0)]);
    assert_eq!(
        actions,
        vec![
            CommitAction::Prewrite(0),
            CommitAction::Prewrite(1),
            CommitAction::GetCommitTs,
            CommitAction::CommitPrimary(60),
            CommitAction::Rollback(0),
            CommitAction::Rollback(1),
            CommitAction::Finished(false),
        ]
    );
    assert_eq!(result, Err(Error::TransactionExpired));
}

#[test]
fn uncertain_primary_commit_leaves_locks_to_readers() {
    let mut client = Client::new();
    client.begin(50);
    client.set(key("A"), key("1"));
    client.set(key("B"), key("2"));
    let (actions, result) = drive(&mut client, vec![Ok(0), Ok(0), Ok(60), Err(Error::Timeout)]);
    assert_eq!(actions.last(), Some(&CommitAction::Finished(false)));
    assert!(!actions.iter().any(|a| matches!(a, CommitAction::Rollback(_))));
    assert!(!actions.iter().any(|a| matches!(a, CommitAction::CommitSecondary(_, _))));
    assert_eq!(result, Err(Error::Timeout));
}

#[test]
fn reader_rolls_committed_secondary_forward() {
    let mut reader = Reader::new();
    let first = reader.step(ReadReply::Locked(PrimaryStatus::Committed(30), false));
    assert!(matches!(first, ReadAction::RollForward(30)));
    match reader.step(ReadReply::Value(key("b1"))) {
        ReadAction::Return(v) => assert_eq!(v, key("b1")),
        _ => panic!("an unlocked read returns its value"),
    }
}

#[test]
fn reader_rolls_back_abandoned_locks() {
    let mut reader = Reader::new();
    assert!(matches!(reader.step(ReadReply::Locked(PrimaryStatus::Pending, true)), ReadAction::RollBack));
    assert!(matches!(reader.step(ReadReply::Locked(PrimaryStatus::RolledBack, false)), ReadAction::RollBack));
    assert_eq!(reader.locks_met, 2);
}

#[test]
fn reader_backs_off_then_gives_up() {
    let mut reader = Reader::new();
    let live = || ReadReply::Locked(PrimaryStatus::Pending, false);
    assert!(matches!(reader.step(live()), ReadAction::Wait(100)));
    assert!(matches!(reader.step(live()), ReadAction::Wait(200)));
    assert!(matches!(reader.step(live()), ReadAction::Wait(400)));
    match reader.step(live()) {
        ReadAction::Fail(e) => assert_eq!(e, Error::Conflict),
        _ => panic!("the reader gives up after its retries"),
    }
}

#[test]
fn reader_passes_read_failure_on() {
    let mut reader = Reader::new();
    match reader.step(ReadReply::Failed(Error::Rpc("down".to_string()))) {
        ReadAction::Fail(e) => assert_eq!(e, Error::Rpc("down".to_string())),
        _ => panic!("a failed read fails the get"),
    }
    assert_eq!(reader.locks_met, 0);
}

#[test]
fn lock_resolution_follows_primary() {
    assert_eq!(resolve_lock(PrimaryStatus::Committed(9), false), Resolution::RollForward(9));
    assert_eq!(resolve_lock(PrimaryStatus::Committed(9), true), Resolution::RollForward(9));
    assert_eq!(resolve_lock(PrimaryStatus::RolledBack, false), Resolution::RollBack);
    assert_eq!(resolve_lock(PrimaryStatus::Pending, true), Resolution::RollBack);
    assert_eq!(resolve_lock(PrimaryStatus::Pending, false), Resolution::Wait);
}

#[test]
fn lock_expiry_by_ttl() {
    assert!(!lock_expired(100, 150, 100));
    assert!(lock_expired(100, 200, 100));
    assert!(lock_expired(100, 250, 100));
    assert!(!lock_expired(100, 50, 10));
    assert!(!lock_expired(u64::MAX - 1, u64::MAX, 5));
}

#[test]
fn read_own_write_without_storage() {
    let mut client = Client::new();
    client.begin(7);
    assert_eq!(client.get(&key("K")), None);
    client.set(key("K"), key("v"));
    assert_eq!(client.get(&key("K")), Some(key("v")));
    assert_eq!(client.get(&key("L")), None);
    assert_eq!(client.start_ts(), 7);
}

#[test]
fn set_overwrites_in_place() {
    let mut client = Client::new();
    client.begin(7);
    client.set(key("A"), key("1"));
    client.set(key("B"), key("2"));
    client.set(key("A"), key("3"));
    assert_eq!(client.get(&key("A")), Some(key("3")));
    assert_eq!(client.get(&key("B")), Some(key("2")));
    let (committer, _) = client.commit();
    let t = committer.transaction();
    assert_eq!(t.len(), 2);
    assert_eq!(*t.write_at(0).0, key("A"));
    assert_eq!(*t.write_at(0).1, key("3"));
    assert_eq!(*t.write_at(1).0, key("B"));
}

#[test]
fn begin_starts_fresh() {
    let mut client = Client::new();
    assert!(!client.in_transaction());
    client.begin(1);
    client.set(key("A"), key("1"));
    client.begin(2);
    assert!(client.in_transaction());
    assert_eq!(client.get(&key("A")), None);
    assert_eq!(client.start_ts(), 2);
}

#[test]
fn byte_helpers() {
    assert!(bytes_eq(&key("abc"), &key("abc")));
    assert!(!bytes_eq(&key("abc"), &key("abd")));
    assert!(!bytes_eq(&key("ab"), &key("abc")));
    assert!(bytes_eq(&vec![], &vec![]));
    assert_eq!(copy_bytes(&key("xyz")), key("xyz"));
}

#[test]
fn prewrite_failure_on_last_key_rolls_back_all_three() {
    let mut client = Client::new();
    client.begin(10);
    client.set(key("A"), key("1"));
    client.set(key("B"), key("2"));
    client.set(key("C"), key("3"));
    let (actions, result) = drive(
        &mut client,
        vec![Ok(0), Ok(0), Err(Error::Rpc("lost".to_string())), Err(Error::Timeout), Ok(0), Ok(0)],
    );
    assert_eq!(
        actions,
        vec![
            CommitAction::Prewrite(0),
            CommitAction::Prewrite(1),
            CommitAction::Prewrite(2),
            CommitAction::Rollback(0),
            CommitAction::Rollback(1),
            CommitAction::Rollback(2),
            CommitAction::Finished(false),
        ]
    );
    assert_eq!(result, Err(Error::Rpc("lost".to_string())));
}

#[test]
fn no_secondary_commit_without_primary_success() {
    let mut client = Client::new();
    client.begin(10);
    client.set(key("A"), key("1"));
    client.set(key("B"), key("2"));
    let (actions, result) = drive(&mut client, vec![Ok(0), Ok(0), Ok(11), Err(Error::Conflict), Ok(0), Ok(0)]);
    assert!(!actions.iter().any(|a| matches!(a, CommitAction::CommitSecondary(_, _))));
    assert_eq!(result, Err(Error::Conflict));
}
