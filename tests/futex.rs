use shm::futex::{deadline_after, wait_outcome, WaitOutcome, EINTR, ETIMEDOUT, has_passed, timespec_of, wait, wait_timeout, Timespec};
use std::sync::atomic::AtomicU32;
use std::time::{Duration, Instant};

#[test]
fn deadline_adds_and_carries() {
    let now = Timespec { secs: 5, nanos: 700_000_000 };
    let dur = Timespec { secs: 1, nanos: 400_000_000 };
    assert_eq!(deadline_after(now, dur), Some(Timespec { secs: 7, nanos: 100_000_000 }));
    let dur = Timespec { secs: 0, nanos: 10_000_000 };
    assert_eq!(deadline_after(now, dur), Some(Timespec { secs: 5, nanos: 710_000_000 }));
}

#[test]
fn deadline_overflow_means_none() {
    let now = Timespec { secs: 3, nanos: 0 };
    let dur = Timespec { secs: u64::MAX - 2, nanos: 0 };
    assert_eq!(deadline_after(now, dur), None);
    let now = Timespec { secs: 3, nanos: 600_000_000 };
    let dur = Timespec { secs: u64::MAX - 3, nanos: 500_000_000 };
    assert_eq!(deadline_after(now, dur), None);
    let dur = Timespec { secs: u64::MAX - 3, nanos: 300_000_000 };
    assert_eq!(
        deadline_after(now, dur),
        Some(Timespec { secs: u64::MAX, nanos: 900_000_000 })
    );
}

#[test]
fn passed_compares_seconds_then_nanos() {
    let d = Timespec { secs: 2, nanos: 500 };
    assert!(has_passed(Timespec { secs: 2, nanos: 500 }, d));
    assert!(has_passed(Timespec { secs: 3, nanos: 0 }, d));
    assert!(!has_passed(Timespec { secs: 2, nanos: 499 }, d));
    assert!(!has_passed(Timespec { secs: 1, nanos: 999_999_999 }, d));
}

#[test]
fn timespec_splits_duration() {
    assert_eq!(
        timespec_of(&Duration::from_millis(2_345)),
        Timespec { secs: 2, nanos: 345_000_000 }
    );
}

#[test]
fn wait_returns_at_once_when_value_differs() {
    let word = AtomicU32::new(0);
    let start = Instant::now();
    wait(&word, 1);
    assert!(!wait_timeout(&word, 1, Some(Duration::from_secs(1))));
    assert!(start.elapsed() < Duration::from_millis(500));
}

#[test]
fn wait_timeout_elapses_on_unchanged_word() {
    let word = AtomicU32::new(2);
    let start = Instant::now();
    assert!(wait_timeout(&word, 2, Some(Duration::from_millis(10))));
    assert!(start.elapsed() >= Duration::from_millis(10));
}

#[test]
fn huge_timeout_has_no_deadline_but_sees_change() {
    let word = AtomicU32::new(4);
    assert!(!wait_timeout(&word, 3, Some(Duration::MAX)));
}

#[test]
fn kernel_wait_results_are_classified() {
    assert_eq!(wait_outcome(0, 0), WaitOutcome::Woken);
    assert_eq!(wait_outcome(-1, ETIMEDOUT), WaitOutcome::TimedOut);
    assert_eq!(wait_outcome(-1, EINTR), WaitOutcome::Interrupted);
    assert_eq!(wait_outcome(-1, 11), WaitOutcome::Woken);
}
