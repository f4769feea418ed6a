//! A condition variable for the mutex of this crate, usable from several processes.
//!
//! Its state is a generation counter, bumped by every notification, and the
//! number of threads that wait. A waiter snapshots the counter before it releases
//! the mutex and waits only while the counter still holds the snapshot, so a
//! notification between the release and the wait is not lost.
use vstd::prelude::*;
use std::sync::atomic::{AtomicU32, AtomicUsize, Ordering};
use std::time::Duration;
use crate::futex;
use crate::mutex::{Mutex, MutexGuard};

verus! {

/// Whether a timed wait ended because its timeout elapsed.
#[derive(Clone, Copy, Debug, PartialEq, Eq, Structural)]
pub struct WaitTimeoutResult(bool);

impl WaitTimeoutResult {
    /// The timeout elapsed.
    pub closed spec fn view(&self) -> bool {
        self.0
    }

    pub fn timed_out(&self) -> (r: bool)
        ensures
            r == self@,
    {
        self.0
    }
}

pub struct Condvar {
    counter: AtomicU32,
    num_waiters: AtomicUsize,
}

impl Default for Condvar {
    fn default() -> Self {
        Condvar::new()
    }
}

impl Condvar {
    /// A condition variable with no waiters.
    pub fn new() -> Self {
        Condvar { counter: AtomicU32::new(0), num_waiters: AtomicUsize::new(0) }
    }

    /// The generation counter, on which waiters wait.
    pub closed spec fn word(&self) -> &AtomicU32 {
        &self.counter
    }

    /// The generation counter, for a driver that wakes its waiters.
    pub fn generation_word(&self) -> (r: &AtomicU32)
        ensures
            r == self.word(),
    {
        &self.counter
    }

    /// The first half of a wait: counts the caller as a waiter, snapshots the
    /// generation, and releases the mutex of `guard`. Returns that mutex, the
    /// generation to wait on (while the counter still holds it), and whether the
    /// release owes a waiter of the mutex a wake.
    pub fn enter_wait<'a, T>(&self, guard: MutexGuard<'a, T>) -> (r: (&'a Mutex<T>, &AtomicU32, u32, bool))
        ensures
            r.0 == guard.owner(),
            r.1 == self.word(),
    {
        let _ = self.num_waiters.fetch_add(1, Ordering::Relaxed);
        let generation = self.counter.load(Ordering::Relaxed);
        let mutex = guard.mutex();
        let wake = Mutex::release(guard);
        (mutex, &self.counter, generation, wake)
    }

    /// The second half of a wait, once the wait on the counter returned: the
    /// caller no longer counts as a waiter. It then locks the mutex again.
    pub fn leave_wait(&self) {
        let _ = self.num_waiters.fetch_sub(1, Ordering::Relaxed);
    }

    /// Releases the mutex of `guard`, waits by polling for a notification (or
    /// returns spuriously), and locks the same mutex again.
    pub fn wait<'a, T>(&self, guard: MutexGuard<'a, T>) -> (r: MutexGuard<'a, T>)
        ensures
            r.owner() == guard.owner(),
    {
        let (mutex, word, generation, _) = self.enter_wait(guard);
        futex::wait(word, generation);
        self.leave_wait();
        mutex.lock()
    }

    /// As `wait`, for at most `dur`; the result tells whether the timeout elapsed
    /// before a notification.
    pub fn wait_timeout<'a, T>(&self, guard: MutexGuard<'a, T>, dur: Duration) -> (r: (
        MutexGuard<'a, T>,
        WaitTimeoutResult,
    ))
        ensures
            r.0.owner() == guard.owner(),
    {
        let (mutex, word, generation, _) = self.enter_wait(guard);
        let timed_out = futex::wait_timeout(word, generation, Some(dur));
        self.leave_wait();
        (mutex.lock(), WaitTimeoutResult(timed_out))
    }

    /// Starts a new generation if any thread waits, and returns whether one
    /// did: a driver on the kernel's futex then wakes one waiter of the counter.
    /// Waiters that poll see the new generation themselves.
    pub fn notify_one(&self) -> bool {
        if self.num_waiters.load(Ordering::Relaxed) > 0 {
            let _ = self.counter.fetch_add(1, Ordering::Relaxed);
            true
        } else {
            false
        }
    }

    /// Starts a new generation if any thread waits, and returns whether one
    /// did: a driver on the kernel's futex then wakes every waiter of the counter.
    /// Waiters that poll see the new generation themselves.
    pub fn notify_all(&self) -> bool {
        if self.num_waiters.load(Ordering::Relaxed) > 0 {
            let _ = self.counter.fetch_add(1, Ordering::Relaxed);
            true
        } else {
            false
        }
    }
}

} // verus!
