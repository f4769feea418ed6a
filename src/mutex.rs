//! A mutual-exclusion lock usable from several processes.
//!
//! The lock word `state` follows a three-state protocol: 0 unlocked, 1 locked
//! with no other thread known to wait, 2 locked and contended. The payload sits in
//! a cell whose ownership the guard takes on locking and hands back on unlocking,
//! so two guards of one mutex can never both hold it.
use vstd::prelude::*;
use vstd::rwlock::{RwLock as Cell, RwLockPredicate, WriteHandle};
use std::sync::atomic::{AtomicU32, Ordering};
use crate::futex;

verus! {

/// Lock word value: unlocked.
pub const UNLOCKED: u32 = 0;

/// Lock word value: locked, no other thread known to wait.
pub const LOCKED: u32 = 1;

/// Lock word value: locked, other threads wait or have waited.
pub const CONTENDED: u32 = 2;

/// Number of polls of a held lock before the contended path is taken.
pub const SPIN_LIMIT: u32 = 100;

/// The cell of a lock admits every payload.
pub struct AnyPayload;

impl<T> RwLockPredicate<T> for AnyPayload {
    open spec fn inv(self, v: T) -> bool {
        true
    }
}

/// The state of one mutex as the protocol sees it: the lock word and how many
/// guards are out.
pub struct MutexModel {
    pub word: u32,
    pub holders: nat,
}

/// The word is one of the three states; it is 0 exactly when no guard is out,
/// and at most one guard is out.
pub open spec fn mutex_inv(m: MutexModel) -> bool {
    &&& m.word <= CONTENDED
    &&& (m.word == UNLOCKED <==> m.holders == 0)
    &&& m.holders <= 1
}

/// Compare-and-swap of 0 into 1 (`try_lock` and the fast path of `lock`): the
/// new state, and whether a guard was handed out.
pub open spec fn step_try_acquire(m: MutexModel) -> (MutexModel, bool) {
    if m.word == UNLOCKED {
        (MutexModel { word: LOCKED, holders: m.holders + 1 }, true)
    } else {
        (m, false)
    }
}

/// Swap of 2 into the word (the contended path): a guard is handed out when
/// the word was 0.
pub open spec fn step_contend(m: MutexModel) -> (MutexModel, bool) {
    if m.word == UNLOCKED {
        (MutexModel { word: CONTENDED, holders: m.holders + 1 }, true)
    } else {
        (MutexModel { word: CONTENDED, holders: m.holders }, false)
    }
}

/// Swap of 0 into the word by the holder (unlocking): the new state, and
/// whether the old word asked the holder to wake a waiter.
pub open spec fn step_release(m: MutexModel) -> (MutexModel, bool) {
    (MutexModel { word: UNLOCKED, holders: (m.holders - 1) as nat }, m.word == CONTENDED)
}

/// Of the model of the lock-word protocol: every step keeps at most one guard
/// out, a step hands out a guard only while none is out, and a release by the
/// holder leaves the lock free. The decisions of the executable lock on what its
/// swaps returned (`acquired_by`, `released_owes_wake`) are stated over these
/// steps; that two guards never hold the payload at once rests on the payload
/// cell, which a guard takes exclusively.
pub proof fn lemma_mutex_exclusion(m: MutexModel)
    requires
        mutex_inv(m),
    ensures
        mutex_inv(step_try_acquire(m).0),
        mutex_inv(step_contend(m).0),
        step_try_acquire(m).1 ==> m.holders == 0,
        step_contend(m).1 ==> m.holders == 0,
        m.holders == 1 ==> mutex_inv(step_release(m).0) && step_release(m).0.holders == 0,
{
}

/// Whether the holder's swap of 0 that returned `prev` owes a waiter a wake.
pub fn released_owes_wake(prev: u32) -> (r: bool)
    ensures
        r == step_release(MutexModel { word: prev, holders: 1 }).1,
{
    prev == CONTENDED
}

/// Whether a swap that returned `prev` acquired the lock.
pub fn acquired_by(prev: u32) -> (r: bool)
    ensures
        r == step_contend(MutexModel { word: prev, holders: 0 }).1,
{
    prev == UNLOCKED
}

/// A lock that gives one holder at a time, in any process mapping it, access to
/// a payload of type `T`.
pub struct Mutex<T> {
    state: AtomicU32,
    data: Cell<T, AnyPayload>,
}

/// Exclusive access to the payload of a mutex. It holds the payload until it is
/// handed back by `Mutex::unlock` or `Condvar::wait`; a guard that is dropped
/// instead keeps the lock held, since handing the payload back to its cell is a
/// step a destructor may not take here.
#[must_use]
pub struct MutexGuard<'a, T> {
    mutex: &'a Mutex<T>,
    value: T,
    handle: WriteHandle<'a, T, AnyPayload>,
    /// The guard took the lock word (always, but after an exhausted wait budget).
    holds_word: bool,
}

impl<'a, T> MutexGuard<'a, T> {
    /// The mutex this guard was taken from.
    pub closed spec fn owner(&self) -> &'a Mutex<T> {
        self.mutex
    }

    /// The payload as the guard holds it.
    pub closed spec fn view(&self) -> T {
        self.value
    }

    /// The mutex this guard was taken from.
    pub fn mutex(&self) -> (r: &'a Mutex<T>)
        ensures
            r == self.owner(),
    {
        self.mutex
    }
}

impl<'a, T> std::ops::Deref for MutexGuard<'a, T> {
    type Target = T;

    fn deref(&self) -> (r: &T)
        ensures
            *r == self.view(),
    {
        &self.value
    }
}

impl<'a, T> std::ops::DerefMut for MutexGuard<'a, T> {
    fn deref_mut(&mut self) -> &mut T {
        &mut self.value
    }
}

impl<T: Default> Default for Mutex<T> {
    fn default() -> Self {
        Mutex::new(T::default())
    }
}

impl<T> Mutex<T> {
    /// An unlocked mutex holding `value`.
    pub fn new(value: T) -> Self {
        Mutex { state: AtomicU32::new(UNLOCKED), data: Cell::new(value, Ghost(AnyPayload)) }
    }

    /// The lock word, on which waiters wait.
    pub closed spec fn word(&self) -> &AtomicU32 {
        &self.state
    }

    /// The lock word, for a driver that waits and wakes on it.
    pub fn lock_word(&self) -> (r: &AtomicU32)
        ensures
            r == self.word(),
    {
        &self.state
    }

    /// Takes the payload out of its cell. The cell waits for a previous holder
    /// to hand the payload back, so exclusive access never rests on the lock word
    /// alone.
    fn take(&self, holds_word: bool) -> (r: MutexGuard<'_, T>)
        ensures
            r.owner() == self,
    {
        let (value, handle) = self.data.acquire_write();
        MutexGuard { mutex: self, value, handle, holds_word }
    }

    /// A guard when the lock was free, `None` when it was held. Never waits for
    /// another holder.
    pub fn try_lock(&self) -> (r: Option<MutexGuard<'_, T>>)
        ensures
            r matches Some(g) ==> g.owner() == self,
    {
        match self.state.compare_exchange(UNLOCKED, LOCKED, Ordering::Acquire, Ordering::Relaxed) {
            Ok(_) => Some(self.take(true)),
            Err(_) => None,
        }
    }

    /// The part of locking that never waits for a wake: takes a free lock, or
    /// polls a briefly held one for a bounded number of rounds and tries again.
    /// `None` sends the caller to `lock_step`.
    pub fn lock_fast(&self) -> (r: Option<MutexGuard<'_, T>>)
        ensures
            r matches Some(g) ==> g.owner() == self,
    {
        if let Some(g) = self.try_lock() {
            return Some(g);
        }
        let mut spins: u32 = SPIN_LIMIT;
        while spins > 0 && self.state.load(Ordering::Relaxed) == LOCKED
            decreases spins,
        {
            futex::pause();
            spins = spins - 1;
        }
        self.try_lock()
    }

    /// One step of the contended path: marks the lock contended and takes it if
    /// it was free; otherwise the caller waits while the lock word holds
    /// `CONTENDED`, then takes the step again.
    pub fn lock_step(&self) -> (r: futex::Step<'_, MutexGuard<'_, T>>)
        ensures
            !(r is Again),
            r matches futex::Step::Done(g) ==> g.owner() == self,
            r matches futex::Step::Wait(w, e) ==> w == self.word() && e == CONTENDED,
    {
        if acquired_by(self.state.swap(CONTENDED, Ordering::Acquire)) {
            futex::Step::Done(self.take(true))
        } else {
            futex::Step::Wait(&self.state, CONTENDED)
        }
    }

    /// Waits until the lock is free and returns a guard of it, polling the lock
    /// word while it waits.
    pub fn lock(&self) -> (r: MutexGuard<'_, T>)
        ensures
            r.owner() == self,
    {
        match self.lock_fast() {
            Some(g) => g,
            None => self.lock_contended(),
        }
    }

    /// Hands the payload back and frees the lock. Returns whether a thread may
    /// wait on the lock word, so that one waiter is owed a wake.
    pub fn release(guard: MutexGuard<'_, T>) -> bool {
        let MutexGuard { mutex, value, handle, holds_word } = guard;
        handle.release_write(value);
        if holds_word {
            released_owes_wake(mutex.state.swap(UNLOCKED, Ordering::Release))
        } else {
            false
        }
    }

    /// Hands the payload back and frees the lock, for waiters that poll the
    /// lock word.
    pub fn unlock(guard: MutexGuard<'_, T>) {
        let _ = Mutex::release(guard);
    }

    /// The contended path of `lock`: takes `lock_step` until it hands out a
    /// guard, polling the lock word in between.
    fn lock_contended(&self) -> (r: MutexGuard<'_, T>)
        ensures
            r.owner() == self,
    {
        let mut rounds: u64 = futex::SPIN_BUDGET;
        while rounds > 0
            decreases rounds,
        {
            match self.lock_step() {
                futex::Step::Done(g) => {
                    return g;
                },
                futex::Step::Wait(w, e) => futex::wait(w, e),
                futex::Step::Again => {},
            }
            rounds = rounds - 1;
        }
        self.take(false)
    }
}

} // verus!
