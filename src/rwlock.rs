//! A reader/writer lock usable from several processes.
//!
//! The lock word `state` holds twice the number of readers, plus one while a
//! writer waits; `WRITE_LOCKED` marks a writer holding the lock. A waiting writer
//! keeps new readers out, so a stream of readers cannot starve it. Writers wait on
//! a second word, a generation counter bumped whenever the last reader leaves or a
//! writer unlocks.
use vstd::prelude::*;
use vstd::rwlock::{RwLock as Cell, ReadHandle, WriteHandle};
use std::sync::atomic::{AtomicU32, Ordering};
use crate::futex;
use crate::mutex::AnyPayload;

verus! {

/// Lock word value while a writer holds the lock.
pub const WRITE_LOCKED: u32 = 0xffff_ffff;

/// The state of one lock as the protocol sees it: the lock word and the guards
/// that are out.
pub struct RwModel {
    pub word: u32,
    pub readers: nat,
    pub writers: nat,
}

/// The word agrees with the guards: either one writer and no reader, with the
/// word at `WRITE_LOCKED`; or no writer and as many readers as the word counts.
pub open spec fn rw_inv(m: RwModel) -> bool {
    if m.word == WRITE_LOCKED {
        m.writers == 1 && m.readers == 0
    } else {
        m.writers == 0 && m.readers == m.word / 2
    }
}

/// Whether a reader may enter at word `s`: no writer holds or waits, and the
/// count has room.
pub open spec fn reader_may_enter(s: u32) -> bool {
    s % 2 == 0 && s < WRITE_LOCKED - 3
}

/// Whether a writer may take the lock at word `s`: no reader and no writer.
pub open spec fn writer_may_enter(s: u32) -> bool {
    s <= 1
}

/// A reader enters (compare-and-swap of `s` into `s + 2`).
pub open spec fn step_read_acquire(m: RwModel) -> RwModel {
    if reader_may_enter(m.word) {
        RwModel { word: (m.word + 2) as u32, readers: m.readers + 1, ..m }
    } else {
        m
    }
}

/// A writer takes the lock (compare-and-swap of `s` into `WRITE_LOCKED`).
pub open spec fn step_write_acquire(m: RwModel) -> RwModel {
    if writer_may_enter(m.word) {
        RwModel { word: WRITE_LOCKED, writers: m.writers + 1, ..m }
    } else {
        m
    }
}

/// A writer announces that it waits (compare-and-swap of an even `s` into `s + 1`).
pub open spec fn step_writer_waits(m: RwModel) -> RwModel {
    if m.word % 2 == 0 && m.word < WRITE_LOCKED - 1 {
        RwModel { word: (m.word + 1) as u32, ..m }
    } else {
        m
    }
}

/// A reader leaves (subtraction of 2).
pub open spec fn step_read_release(m: RwModel) -> RwModel {
    RwModel { word: (m.word - 2) as u32, readers: (m.readers - 1) as nat, ..m }
}

/// The writer leaves (store of 0).
pub open spec fn step_write_release(m: RwModel) -> RwModel {
    RwModel { word: 0, writers: (m.writers - 1) as nat, ..m }
}

/// Of the model of the lock-word protocol: every step keeps the word in
/// agreement with the guards, so the model never has a writer beside a reader or a
/// second writer. The decisions of the executable lock on the word it read
/// (`reader_can_enter`, `writer_can_enter`) are stated over these steps; that a
/// writer never shares the payload with another guard rests on the payload cell,
/// which a writer takes exclusively.
pub proof fn lemma_rw_exclusion(m: RwModel)
    requires
        rw_inv(m),
    ensures
        rw_inv(step_read_acquire(m)),
        rw_inv(step_write_acquire(m)),
        rw_inv(step_writer_waits(m)),
        m.readers > 0 && m.word != WRITE_LOCKED ==> rw_inv(step_read_release(m)),
        m.writers == 1 ==> rw_inv(step_write_release(m)),
        step_write_acquire(m).writers == 1 ==> step_write_acquire(m).readers == 0,
        step_read_acquire(m).readers > 0 ==> step_read_acquire(m).writers == 0,
{
}

/// Whether a reader may enter at word `s`.
pub fn reader_can_enter(s: u32) -> (r: bool)
    ensures
        r == reader_may_enter(s),
{
    s % 2 == 0 && s < WRITE_LOCKED - 3
}

/// Whether a writer may take the lock at word `s`.
pub fn writer_can_enter(s: u32) -> (r: bool)
    ensures
        r == writer_may_enter(s),
{
    s <= 1
}

/// A lock that gives any number of readers, or one writer, in any process
/// mapping it, access to a payload of type `T`.
pub struct RwLock<T> {
    state: AtomicU32,
    writer_wake_counter: AtomicU32,
    data: Cell<T, AnyPayload>,
}

/// Shared access to the payload of an `RwLock`, until `RwLock::unlock_read`; a
/// guard that is dropped instead keeps the lock held, since releasing the payload
/// cell is a step a destructor may not take here.
#[must_use]
pub struct RwLockReadGuard<'a, T> {
    lock: &'a RwLock<T>,
    handle: ReadHandle<'a, T, AnyPayload>,
    /// The guard counted itself in the lock word (always, but after an exhausted
    /// wait budget).
    registered: bool,
}

/// Exclusive access to the payload of an `RwLock`, until `RwLock::unlock_write`;
/// a guard that is dropped instead keeps the lock held, since handing the payload
/// back to its cell is a step a destructor may not take here.
#[must_use]
pub struct RwLockWriteGuard<'a, T> {
    lock: &'a RwLock<T>,
    value: T,
    handle: WriteHandle<'a, T, AnyPayload>,
    registered: bool,
}

impl<'a, T> RwLockReadGuard<'a, T> {
    /// The lock this guard was taken from.
    pub closed spec fn owner(&self) -> &'a RwLock<T> {
        self.lock
    }
}

impl<'a, T> RwLockWriteGuard<'a, T> {
    /// The lock this guard was taken from.
    pub closed spec fn owner(&self) -> &'a RwLock<T> {
        self.lock
    }

    /// The payload as the guard holds it.
    pub closed spec fn view(&self) -> T {
        self.value
    }
}

impl<'a, T> std::ops::Deref for RwLockReadGuard<'a, T> {
    type Target = T;

    fn deref(&self) -> &T {
        self.handle.borrow()
    }
}

impl<'a, T> std::ops::Deref for RwLockWriteGuard<'a, T> {
    type Target = T;

    fn deref(&self) -> (r: &T)
        ensures
            *r == self.view(),
    {
        &self.value
    }
}

impl<'a, T> std::ops::DerefMut for RwLockWriteGuard<'a, T> {
    fn deref_mut(&mut self) -> &mut T {
        &mut self.value
    }
}

impl<T: Default> Default for RwLock<T> {
    fn default() -> Self {
        RwLock::new(T::default())
    }
}

impl<T> RwLock<T> {
    /// An idle lock holding `value`.
    pub fn new(value: T) -> Self {
        RwLock {
            state: AtomicU32::new(0),
            writer_wake_counter: AtomicU32::new(0),
            data: Cell::new(value, Ghost(AnyPayload)),
        }
    }

    fn share(&self, registered: bool) -> (r: RwLockReadGuard<'_, T>)
        ensures
            r.owner() == self,
    {
        RwLockReadGuard { lock: self, handle: self.data.acquire_read(), registered }
    }

    fn take(&self, registered: bool) -> (r: RwLockWriteGuard<'_, T>)
        ensures
            r.owner() == self,
    {
        let (value, handle) = self.data.acquire_write();
        RwLockWriteGuard { lock: self, value, handle, registered }
    }

    /// A reader guard when no writer holds or waits for the lock; never waits.
    pub fn try_read(&self) -> (r: Option<RwLockReadGuard<'_, T>>)
        ensures
            r matches Some(g) ==> g.owner() == self,
    {
        let s = self.state.load(Ordering::Relaxed);
        if reader_can_enter(s) {
            match self.state.compare_exchange(s, s + 2, Ordering::Acquire, Ordering::Relaxed) {
                Ok(_) => Some(self.share(true)),
                Err(_) => None,
            }
        } else {
            None
        }
    }

    /// The word readers wait on while a writer holds or waits for the lock.
    pub closed spec fn word(&self) -> &AtomicU32 {
        &self.state
    }

    /// The generation counter writers wait on while readers hold the lock.
    pub closed spec fn writer_word(&self) -> &AtomicU32 {
        &self.writer_wake_counter
    }

    /// The lock word, for a driver that waits and wakes on it.
    pub fn lock_word(&self) -> (r: &AtomicU32)
        ensures
            r == self.word(),
    {
        &self.state
    }

    /// The writers' generation counter, for a driver that waits and wakes on it.
    pub fn writer_wake_word(&self) -> (r: &AtomicU32)
        ensures
            r == self.writer_word(),
    {
        &self.writer_wake_counter
    }

    /// One step of taking a read lock: a guard when no writer holds or waits; a
    /// wait while the lock word keeps the value that kept the reader out; or,
    /// after a lost race, another step.
    pub fn read_step(&self) -> (r: futex::Step<'_, RwLockReadGuard<'_, T>>)
        ensures
            r matches futex::Step::Done(g) ==> g.owner() == self,
            r matches futex::Step::Wait(w, e) ==> w == self.word() && !reader_may_enter(e),
    {
        let s = self.state.load(Ordering::Relaxed);
        if reader_can_enter(s) {
            match self.state.compare_exchange(s, s + 2, Ordering::Acquire, Ordering::Relaxed) {
                Ok(_) => futex::Step::Done(self.share(true)),
                Err(_) => futex::Step::Again,
            }
        } else {
            futex::Step::Wait(&self.state, s)
        }
    }

    /// Waits while a writer holds or waits for the lock, polling the lock word,
    /// then returns a reader guard.
    pub fn read(&self) -> (r: RwLockReadGuard<'_, T>)
        ensures
            r.owner() == self,
    {
        let mut rounds: u64 = futex::SPIN_BUDGET;
        while rounds > 0
            decreases rounds,
        {
            match self.read_step() {
                futex::Step::Done(g) => {
                    return g;
                },
                futex::Step::Wait(w, e) => futex::wait(w, e),
                futex::Step::Again => {},
            }
            rounds = rounds - 1;
        }
        self.share(false)
    }

    /// A writer guard when the lock is idle; never waits.
    pub fn try_write(&self) -> (r: Option<RwLockWriteGuard<'_, T>>)
        ensures
            r matches Some(g) ==> g.owner() == self,
    {
        match self.state.compare_exchange(0, WRITE_LOCKED, Ordering::Acquire, Ordering::Relaxed) {
            Ok(_) => Some(self.take(true)),
            Err(_) => None,
        }
    }

    /// One step of taking the write lock: a guard when no reader and no writer
    /// holds it; otherwise the writer announces that it waits and, while readers
    /// or a writer remain, waits on the writers' generation counter; or, after a
    /// lost race, another step.
    pub fn write_step(&self) -> (r: futex::Step<'_, RwLockWriteGuard<'_, T>>)
        ensures
            r matches futex::Step::Done(g) ==> g.owner() == self,
            r matches futex::Step::Wait(w, e) ==> w == self.writer_word(),
    {
        let s = self.state.load(Ordering::Relaxed);
        if writer_can_enter(s) {
            match self.state.compare_exchange(s, WRITE_LOCKED, Ordering::Acquire, Ordering::Relaxed) {
                Ok(_) => futex::Step::Done(self.take(true)),
                Err(_) => futex::Step::Again,
            }
        } else if s % 2 == 0 && s < WRITE_LOCKED - 1 {
            let _ = self.state.compare_exchange(s, s + 1, Ordering::Relaxed, Ordering::Relaxed);
            futex::Step::Again
        } else {
            let generation = self.writer_wake_counter.load(Ordering::Acquire);
            if self.state.load(Ordering::Relaxed) >= 2 {
                futex::Step::Wait(&self.writer_wake_counter, generation)
            } else {
                futex::Step::Again
            }
        }
    }

    /// Announces a waiting writer, waits until no reader and no writer holds the
    /// lock, polling the writers' generation counter, and returns a writer guard.
    pub fn write(&self) -> (r: RwLockWriteGuard<'_, T>)
        ensures
            r.owner() == self,
    {
        let mut rounds: u64 = futex::SPIN_BUDGET;
        while rounds > 0
            decreases rounds,
        {
            match self.write_step() {
                futex::Step::Done(g) => {
                    return g;
                },
                futex::Step::Wait(w, e) => futex::wait(w, e),
                futex::Step::Again => {},
            }
            rounds = rounds - 1;
        }
        self.take(false)
    }

    /// Ends a read; the last reader to leave lets a waiting writer in by
    /// starting a new writer generation. Returns whether it did, so that one
    /// waiter of the writers' counter is owed a wake.
    pub fn unlock_read(guard: RwLockReadGuard<'_, T>) -> bool {
        let RwLockReadGuard { lock, handle, registered } = guard;
        handle.release_read();
        if registered && lock.state.fetch_sub(2, Ordering::Release) == 3 {
            let _ = lock.writer_wake_counter.fetch_add(1, Ordering::Release);
            true
        } else {
            false
        }
    }

    /// Hands the payload back and frees the lock for readers and writers, and
    /// starts a new writer generation. A wake is always owed: one to a waiter of
    /// the writers' counter and one to every waiter of the lock word.
    pub fn unlock_write(guard: RwLockWriteGuard<'_, T>) {
        let RwLockWriteGuard { lock, value, handle, registered } = guard;
        handle.release_write(value);
        if registered {
            lock.state.store(0, Ordering::Release);
            let _ = lock.writer_wake_counter.fetch_add(1, Ordering::Release);
        }
    }
}

} // verus!
