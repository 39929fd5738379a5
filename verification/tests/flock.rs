use snapcase::flock::{
    is_stale, Attempt, Event, FileLock, Guard, Heartbeat, Lock, Release, POLL_MILLIS,
    STALE_AFTER_NANOS,
};

const SECOND: i128 = 1_000_000_000;

#[test]
fn windows_are_as_documented() {
    assert_eq!(STALE_AFTER_NANOS, 1_500_000_000);
    assert_eq!(POLL_MILLIS, 500);
}

#[test]
fn staleness_is_strictly_beyond_the_window() {
    let now = 100 * SECOND;
    assert!(!is_stale(now, now));
    assert!(!is_stale(now - STALE_AFTER_NANOS, now));
    assert!(is_stale(now - STALE_AFTER_NANOS - 1, now));
    assert!(!is_stale(now + STALE_AFTER_NANOS, now));
    assert!(is_stale(now + STALE_AFTER_NANOS + 1, now));
}

#[test]
fn staleness_at_the_ends_of_the_clock() {
    assert!(!is_stale(i128::MIN, i128::MIN));
    assert!(!is_stale(i128::MAX, i128::MAX));
    assert!(is_stale(i128::MIN, i128::MAX));
    assert!(is_stale(i128::MAX, i128::MIN));
    assert!(!is_stale(i128::MIN, i128::MIN + STALE_AFTER_NANOS));
    assert!(is_stale(i128::MIN, i128::MIN + STALE_AFTER_NANOS + 1));
}

#[test]
fn acquire_starts_with_the_creation() {
    let lock = Lock::acquire("/work/.lock".to_owned());
    assert_eq!(lock.path, "/work/.lock");
    assert_eq!(lock.intraprocess_guard, Guard::Locked);
    assert_eq!(lock.lockfile, FileLock::Pending(Attempt::Create));
    assert_eq!(lock.pending(), Some(Attempt::Create));
    assert!(!lock.holds_file());
}

#[test]
fn created_file_is_held() {
    let mut lock = Lock::acquire("/work/.lock".to_owned());
    lock.advance(Event::Created);
    assert!(lock.holds_file());
    assert_eq!(lock.pending(), None);
}

#[test]
fn other_failure_to_create_gives_the_file_up() {
    let mut lock = Lock::acquire("/work/.lock".to_owned());
    lock.advance(Event::CreateFailed);
    assert_eq!(lock.lockfile, FileLock::NotLocked);
    assert_eq!(lock.pending(), None);
    assert_eq!(lock.intraprocess_guard, Guard::Locked);
}

#[test]
fn fresh_file_is_waited_for() {
    let mut lock = Lock::acquire("/work/.lock".to_owned());
    lock.advance(Event::AlreadyExists);
    assert_eq!(lock.pending(), Some(Attempt::Probe));
    lock.advance(Event::Found { modified: 10 * SECOND, now: 11 * SECOND });
    assert_eq!(lock.pending(), Some(Attempt::Sleep));
    lock.advance(Event::Slept);
    assert_eq!(lock.pending(), Some(Attempt::Create));
}

#[test]
fn stale_file_is_stolen() {
    let mut lock = Lock::acquire("/work/.lock".to_owned());
    lock.advance(Event::AlreadyExists);
    lock.advance(Event::Found { modified: 10 * SECOND, now: 12 * SECOND });
    assert_eq!(lock.pending(), Some(Attempt::Steal));
    lock.advance(Event::Recreated);
    assert!(lock.holds_file());
}

#[test]
fn file_from_the_future_is_stolen() {
    let mut lock = Lock::acquire("/work/.lock".to_owned());
    lock.advance(Event::AlreadyExists);
    lock.advance(Event::Found { modified: 20 * SECOND, now: 12 * SECOND });
    assert_eq!(lock.pending(), Some(Attempt::Steal));
    lock.advance(Event::RecreateFailed);
    assert_eq!(lock.lockfile, FileLock::NotLocked);
}

#[test]
fn vanished_file_is_tried_again_at_once() {
    let mut lock = Lock::acquire("/work/.lock".to_owned());
    lock.advance(Event::AlreadyExists);
    lock.advance(Event::Vanished);
    assert_eq!(lock.pending(), Some(Attempt::Create));
}

#[test]
fn failed_probe_gives_the_file_up() {
    let mut lock = Lock::acquire("/work/.lock".to_owned());
    lock.advance(Event::AlreadyExists);
    lock.advance(Event::ProbeFailed);
    assert_eq!(lock.lockfile, FileLock::NotLocked);
}

#[test]
fn event_that_does_not_fit_gives_the_file_up() {
    assert_eq!(FileLock::Pending(Attempt::Create).step(Event::Slept), FileLock::NotLocked);
    assert_eq!(FileLock::Pending(Attempt::Sleep).step(Event::Created), FileLock::NotLocked);
    assert_eq!(FileLock::Pending(Attempt::Steal).step(Event::Created), FileLock::NotLocked);
}

#[test]
fn ended_acquisition_ignores_events() {
    assert_eq!(FileLock::Locked.step(Event::CreateFailed), FileLock::Locked);
    assert_eq!(FileLock::NotLocked.step(Event::Created), FileLock::NotLocked);
}

#[test]
fn release_undoes_the_file_layer_first() {
    let mut lock = Lock::acquire("/work/.lock".to_owned());
    lock.advance(Event::Created);
    assert_eq!(lock.release(), vec![Release::StopHeartbeat, Release::RemoveFile, Release::Unlock]);
    assert_eq!(lock.lockfile, FileLock::NotLocked);
    assert_eq!(lock.intraprocess_guard, Guard::NotLocked);
    assert_eq!(lock.release(), vec![]);
}

#[test]
fn release_without_the_file_gives_the_guard_back() {
    let mut lock = Lock::acquire("/work/.lock".to_owned());
    lock.advance(Event::CreateFailed);
    assert_eq!(lock.release(), vec![Release::Unlock]);
}

#[test]
fn heartbeat_renews_until_done() {
    assert_eq!(Heartbeat::start(), Heartbeat::Sleep);
    assert_eq!(Heartbeat::after_sleep(false), Heartbeat::Truncate);
    assert_eq!(Heartbeat::after_truncate(true), Heartbeat::Sleep);
    assert_eq!(Heartbeat::after_sleep(true), Heartbeat::Stop);
    assert_eq!(Heartbeat::after_truncate(false), Heartbeat::Stop);
}

#[test]
fn live_holder_keeps_the_acquirer_out() {
    let mut lock = Lock::acquire("/work/.lock".to_owned());
    for round in 0..5 {
        let now = (100 + round) * SECOND;
        lock.advance(Event::AlreadyExists);
        assert!(!lock.holds_file());
        lock.advance(Event::Found { modified: now - SECOND / 2, now });
        assert!(!lock.holds_file());
        lock.advance(Event::Slept);
        assert!(!lock.holds_file());
        assert_eq!(lock.pending(), Some(Attempt::Create));
    }
}
