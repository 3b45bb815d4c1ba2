use winsync::condvar::{cleanup_duty, Condvar, Duty, WaitOutcome, INFINITE};
use winsync::mutex::Mutex;
use winsync::word::{unpack, WakeupMode, WAKEUP_MODE_ALL, WAKEUP_MODE_ONE};

fn ready_condvar() -> Condvar {
    let mut cv = Condvar::new();
    cv.init();
    cv
}

#[test]
fn fresh_condvar_is_idle() {
    let cv = ready_condvar();
    assert!(cv.idle());
    assert!(cv.token_available());
    assert_eq!(cv.sleepers_count(), 0);
    assert_eq!(cv.wakeup_mode(), WakeupMode::Idle);
}

#[test]
fn notify_one_wakes_the_waiter() {
    let mut m = Mutex::new();
    let mut cv = ready_condvar();
    m.lock(1);
    cv.enter_wait(&mut m, 1);
    assert!(!m.is_held_by(1));
    assert_eq!(cv.sleepers_count(), 1);

    assert!(m.can_lock(2));
    m.lock(2);
    cv.notify_one();
    assert_eq!(cv.wakeup_mode(), WakeupMode::One);
    assert!(!cv.token_available());
    m.unlock(2);

    assert!(cv.wake_enabled(WaitOutcome::WokenOne, INFINITE));
    assert!(!cv.wake_enabled(WaitOutcome::WokenAll, INFINITE));
    let woke = cv.wait_timeout(&mut m, 1, INFINITE, WaitOutcome::WokenOne);
    assert!(woke);
    assert!(m.is_held_by(1));
    assert!(cv.idle());
}

#[test]
fn notify_all_wakes_three_waiters() {
    let mut m = Mutex::new();
    let mut cv = ready_condvar();
    for t in 1..=3u64 {
        m.lock(t);
        cv.enter_wait(&mut m, t);
    }
    assert_eq!(cv.sleepers_count(), 3);
    cv.notify_all();
    assert_eq!(cv.wakeup_mode(), WakeupMode::All);
    for t in [2u64, 3, 1] {
        assert!(cv.wake_enabled(WaitOutcome::WokenAll, INFINITE));
        assert!(m.can_lock(t));
        let woke = cv.wait_timeout(&mut m, t, INFINITE, WaitOutcome::WokenAll);
        assert!(woke);
        m.unlock(t);
    }
    assert!(cv.idle());
    assert!(!cv.wake_enabled(WaitOutcome::WokenAll, INFINITE));
}

#[test]
fn notify_all_leaves_no_stale_wakeup() {
    let mut m = Mutex::new();
    let mut cv = ready_condvar();
    m.lock(1);
    cv.enter_wait(&mut m, 1);
    m.lock(2);
    cv.enter_wait(&mut m, 2);
    cv.notify_all();
    cv.wait(&mut m, 1, WaitOutcome::WokenAll);
    m.unlock(1);
    assert!(!cv.token_available());
    cv.wait(&mut m, 2, WaitOutcome::WokenAll);
    m.unlock(2);
    assert!(cv.idle());

    m.lock(3);
    cv.enter_wait(&mut m, 3);
    assert!(!cv.wake_enabled(WaitOutcome::WokenAll, INFINITE));
    assert!(!cv.wake_enabled(WaitOutcome::WokenOne, INFINITE));
    assert_eq!(cv.wakeup_mode(), WakeupMode::Idle);
}

#[test]
fn lone_wait_timeout_times_out_and_leaves_idle() {
    let mut m = Mutex::new();
    let mut cv = ready_condvar();
    m.lock(1);
    cv.enter_wait(&mut m, 1);
    assert!(cv.wake_enabled(WaitOutcome::TimedOut, 50));
    assert!(!cv.wake_enabled(WaitOutcome::TimedOut, INFINITE));
    let woke = cv.wait_timeout(&mut m, 1, 50, WaitOutcome::TimedOut);
    assert!(!woke);
    assert!(m.is_held_by(1));
    assert!(cv.idle());

    cv.enter_wait(&mut m, 1);
    cv.notify_one();
    assert!(cv.wait_timeout(&mut m, 1, INFINITE, WaitOutcome::WokenOne));
    assert!(cv.idle());
}

#[test]
fn notify_one_twice_wakes_two_of_three() {
    let mut m = Mutex::new();
    let mut cv = ready_condvar();
    for t in 1..=3u64 {
        m.lock(t);
        cv.enter_wait(&mut m, t);
    }
    for t in [3u64, 1] {
        assert!(cv.token_available());
        cv.notify_one();
        assert!(!cv.token_available());
        assert!(cv.wait_timeout(&mut m, t, INFINITE, WaitOutcome::WokenOne));
        m.unlock(t);
    }
    assert_eq!(cv.sleepers_count(), 1);
    assert!(!cv.wake_enabled(WaitOutcome::WokenOne, INFINITE));
    assert!(!cv.wake_enabled(WaitOutcome::WokenAll, INFINITE));
    assert!(cv.token_available());
}

#[test]
fn notify_without_sleepers_keeps_no_credit() {
    let mut m = Mutex::new();
    let mut cv = ready_condvar();
    cv.notify_one();
    assert!(cv.idle());
    cv.notify_all();
    assert!(cv.idle());
    m.lock(1);
    cv.enter_wait(&mut m, 1);
    assert!(!cv.wake_enabled(WaitOutcome::WokenOne, INFINITE));
}

#[test]
fn last_sleeper_timing_out_clears_unclaimed_credit() {
    let mut m = Mutex::new();
    let mut cv = ready_condvar();
    m.lock(1);
    cv.enter_wait(&mut m, 1);
    m.lock(2);
    cv.enter_wait(&mut m, 2);
    cv.notify_one();
    assert!(!cv.wait_timeout(&mut m, 1, 10, WaitOutcome::TimedOut));
    m.unlock(1);
    assert_eq!(cv.wakeup_mode(), WakeupMode::One);
    assert_eq!(cv.sleepers_count(), 1);
    assert!(!cv.token_available());
    assert!(!cv.wait_timeout(&mut m, 2, 10, WaitOutcome::TimedOut));
    assert!(cv.idle());
}

#[test]
fn destroy_needs_no_sleepers() {
    let mut m = Mutex::new();
    let mut cv = ready_condvar();
    m.lock(1);
    cv.enter_wait(&mut m, 1);
    assert!(!cv.idle());
    assert_eq!(cv.sleepers_count(), 1);
    assert!(!cv.wait_timeout(&mut m, 1, 5, WaitOutcome::TimedOut));
    assert_eq!(cv.sleepers_count(), 0);
    cv.destroy();
    assert_eq!(cv.sleepers_count(), 0);
}

#[test]
fn cleanup_duty_table() {
    assert_eq!(cleanup_duty(WaitOutcome::WokenOne, WakeupMode::Idle, 2, INFINITE), Duty::Release);
    assert_eq!(cleanup_duty(WaitOutcome::TimedOut, WakeupMode::One, 0, 50), Duty::ResetOneAndRelease);
    assert_eq!(cleanup_duty(WaitOutcome::WokenAll, WakeupMode::All, 0, INFINITE), Duty::ResetAllAndRelease);
    assert_eq!(cleanup_duty(WaitOutcome::TimedOut, WakeupMode::All, 0, 50), Duty::ResetAllAndRelease);
    assert_eq!(cleanup_duty(WaitOutcome::TimedOut, WakeupMode::One, 1, 50), Duty::Nothing);
    assert_eq!(cleanup_duty(WaitOutcome::WokenAll, WakeupMode::All, 2, INFINITE), Duty::Nothing);
    assert_eq!(cleanup_duty(WaitOutcome::TimedOut, WakeupMode::Idle, 3, INFINITE), Duty::Invalid);
    assert_eq!(cleanup_duty(WaitOutcome::WokenAll, WakeupMode::Idle, 1, INFINITE), Duty::Invalid);
}

#[test]
fn unpack_splits_the_word() {
    assert_eq!(unpack(0), (0, WakeupMode::Idle));
    assert_eq!(unpack(WAKEUP_MODE_ONE + 3), (3, WakeupMode::One));
    assert_eq!(unpack(WAKEUP_MODE_ALL + 1), (1, WakeupMode::All));
    assert_eq!(unpack(7), (7, WakeupMode::Idle));
}
