//! Waiting on a 32-bit word of the shared region.
//!
//! The primitives of this crate decide, one step at a time, whether a thread has
//! its lock or must wait while a word holds a value (`Step`), and whether a release
//! owes a wake. A driver performs the waits and wakes. The kernel's shared futex
//! suspends the thread; the driver here polls the word instead, which needs no
//! system call and sees stores from every process mapping the region. Its
//! waits are bounded by a spin budget; running out of it is reported like a
//! spurious wakeup, which callers must tolerate anyway.
//!
//! For a driver on the kernel's futex this module decides what its wait call
//! reported (`wait_outcome`) and when the wait's deadline falls (`deadline_after`).
use vstd::prelude::*;
use std::sync::atomic::{AtomicU32, Ordering};
use std::time::{Duration, Instant};

verus! {

/// Nanoseconds in one second.
pub const NANOS_PER_SEC: u32 = 1_000_000_000;

/// Number of polls a wait makes before it returns as a spurious wakeup.
pub const SPIN_BUDGET: u64 = 0xffff_ffff_ffff_ffff;

/// The operating system's code for "the wait reached its deadline".
pub const ETIMEDOUT: i32 = 110;

/// The operating system's code for "a signal interrupted the call".
pub const EINTR: i32 = 4;

/// One step of acquiring a lock: the guard `G`, a wait while the word holds the
/// value, or a lost race after which the step is taken again at once.
pub enum Step<'a, G> {
    Done(G),
    Wait(&'a AtomicU32, u32),
    Again,
}

/// What a kernel wait on a word reported.
#[derive(Clone, Copy, Debug, PartialEq, Eq, Structural)]
pub enum WaitOutcome {
    /// Woken, the word no longer held the value, or a spurious return.
    Woken,
    /// The deadline passed.
    TimedOut,
    /// A signal interrupted the wait; it is made again toward the same deadline.
    Interrupted,
}

/// Classifies the return value `ret` of a kernel wait and, where it is negative,
/// the error code `code`.
pub fn wait_outcome(ret: i64, code: i32) -> (r: WaitOutcome)
    ensures
        r == (if ret >= 0 {
            WaitOutcome::Woken
        } else if code == ETIMEDOUT {
            WaitOutcome::TimedOut
        } else if code == EINTR {
            WaitOutcome::Interrupted
        } else {
            WaitOutcome::Woken
        }),
{
    if ret >= 0 {
        WaitOutcome::Woken
    } else if code == ETIMEDOUT {
        WaitOutcome::TimedOut
    } else if code == EINTR {
        WaitOutcome::Interrupted
    } else {
        WaitOutcome::Woken
    }
}

#[verifier::external_type_specification]
#[verifier::external_body]
pub struct ExInstant(Instant);

/// A reading of the monotonic clock, or a span of it: whole seconds and the
/// nanoseconds beyond them.
#[derive(Clone, Copy, Debug, PartialEq, Eq, Structural)]
pub struct Timespec {
    pub secs: u64,
    pub nanos: u32,
}

impl Timespec {
    /// The nanosecond part is below one second.
    pub open spec fn wf(self) -> bool {
        self.nanos < NANOS_PER_SEC
    }

    /// The instant or span in nanoseconds.
    pub open spec fn total(self) -> int {
        self.secs * (NANOS_PER_SEC as int) + self.nanos
    }
}

/// One past the largest number of nanoseconds a `Timespec` can hold.
pub open spec fn timespec_limit() -> int {
    (u64::MAX as int + 1) * (NANOS_PER_SEC as int)
}

/// The instant `dur` after `now`, or `None` where it does not fit; a caller
/// treats `None` as a wait without deadline.
pub fn deadline_after(now: Timespec, dur: Timespec) -> (r: Option<Timespec>)
    requires
        now.wf(),
        dur.wf(),
    ensures
        r is Some <==> now.total() + dur.total() < timespec_limit(),
        r matches Some(d) ==> d.wf() && d.total() == now.total() + dur.total(),
{
    let nanos: u32 = now.nanos + dur.nanos;
    let (carry, nanos) = if nanos >= NANOS_PER_SEC {
        (1u64, nanos - NANOS_PER_SEC)
    } else {
        (0u64, nanos)
    };
    match now.secs.checked_add(dur.secs) {
        None => {
            assert(now.total() + dur.total() >= timespec_limit()) by (nonlinear_arith)
                requires
                    now.secs + dur.secs > u64::MAX,
                    now.total() == now.secs * 1_000_000_000int + now.nanos,
                    dur.total() == dur.secs * 1_000_000_000int + dur.nanos,
                    timespec_limit() == (u64::MAX as int + 1) * 1_000_000_000int,
                    now.nanos >= 0,
                    dur.nanos >= 0,
            ;
            None
        },
        Some(secs) => match secs.checked_add(carry) {
            None => {
                assert(now.total() + dur.total() >= timespec_limit()) by (nonlinear_arith)
                    requires
                        secs == now.secs + dur.secs,
                        secs == u64::MAX,
                        carry == 1,
                        now.nanos + dur.nanos >= 1_000_000_000,
                        now.total() == now.secs * 1_000_000_000int + now.nanos,
                        dur.total() == dur.secs * 1_000_000_000int + dur.nanos,
                        timespec_limit() == (u64::MAX as int + 1) * 1_000_000_000int,
                ;
                None
            },
            Some(secs) => {
                let d = Timespec { secs, nanos };
                assert(d.total() == now.total() + dur.total()) by (nonlinear_arith)
                    requires
                        secs == now.secs + dur.secs + carry,
                        nanos + carry * 1_000_000_000int == now.nanos + dur.nanos,
                        d.total() == d.secs * 1_000_000_000int + d.nanos,
                        d.secs == secs,
                        d.nanos == nanos,
                        now.total() == now.secs * 1_000_000_000int + now.nanos,
                        dur.total() == dur.secs * 1_000_000_000int + dur.nanos,
                ;
                assert(d.total() < timespec_limit()) by (nonlinear_arith)
                    requires
                        d.total() == d.secs * 1_000_000_000int + d.nanos,
                        d.secs <= u64::MAX,
                        d.nanos < 1_000_000_000,
                        timespec_limit() == (u64::MAX as int + 1) * 1_000_000_000int,
                ;
                Some(d)
            },
        },
    }
}

/// Whether the clock reading `now` is at or past `deadline`.
pub fn has_passed(now: Timespec, deadline: Timespec) -> (r: bool)
    requires
        now.wf(),
        deadline.wf(),
    ensures
        r == (now.total() >= deadline.total()),
{
    assert(now.secs < deadline.secs ==> now.total() < deadline.total()) by (nonlinear_arith)
        requires
            now.nanos < 1_000_000_000,
            deadline.nanos >= 0,
            now.total() == now.secs * 1_000_000_000int + now.nanos,
            deadline.total() == deadline.secs * 1_000_000_000int + deadline.nanos,
    ;
    assert(now.secs > deadline.secs ==> now.total() > deadline.total()) by (nonlinear_arith)
        requires
            deadline.nanos < 1_000_000_000,
            now.nanos >= 0,
            now.total() == now.secs * 1_000_000_000int + now.nanos,
            deadline.total() == deadline.secs * 1_000_000_000int + deadline.nanos,
    ;
    now.secs > deadline.secs || (now.secs == deadline.secs && now.nanos >= deadline.nanos)
}

/// Relies on `Instant::now`: the origin of the clock readings of one wait.
#[verifier::external_body]
fn clock_origin() -> Instant {
    Instant::now()
}

/// Relies on `Instant::elapsed`: the monotonic time since `origin`.
#[verifier::external_body]
fn elapsed_since(origin: &Instant) -> Duration {
    origin.elapsed()
}

/// Relies on `Duration::as_secs`: the whole seconds of `d`.
#[verifier::external_body]
fn whole_secs(d: &Duration) -> u64 {
    d.as_secs()
}

/// Relies on `Duration::subsec_nanos`, which is documented to stay below one second.
#[verifier::external_body]
fn subsec_nanos(d: &Duration) -> (r: u32)
    ensures
        r < NANOS_PER_SEC,
{
    d.subsec_nanos()
}

/// Relies on `core::hint::spin_loop`: tells the processor that this thread is polling.
#[verifier::external_body]
pub(crate) fn pause() {
    core::hint::spin_loop()
}

/// `d` split into seconds and nanoseconds.
pub fn timespec_of(d: &Duration) -> (r: Timespec)
    ensures
        r.wf(),
{
    Timespec { secs: whole_secs(d), nanos: subsec_nanos(d) }
}

/// Waits, by polling, while `word` holds `expected`. Returns at once if it does
/// not; may also return spuriously.
pub fn wait(word: &AtomicU32, expected: u32) {
    let _ = wait_timeout(word, expected, None);
}

/// Waits, by polling, while `word` holds `expected`, for at most `timeout` where
/// one is given. Returns `true` when the timeout elapsed, `false` when the word was
/// seen to change or on a spurious return. A timeout too large for the clock means
/// no deadline.
pub fn wait_timeout(word: &AtomicU32, expected: u32, timeout: Option<Duration>) -> (r: bool)
    ensures
        timeout is None ==> !r,
{
    let origin = clock_origin();
    let deadline = match timeout {
        Some(d) => deadline_after(timespec_of(&elapsed_since(&origin)), timespec_of(&d)),
        None => None,
    };
    let mut budget: u64 = SPIN_BUDGET;
    while budget > 0
        invariant
            timeout is None ==> deadline is None,
            deadline matches Some(d) ==> d.wf(),
        decreases budget,
    {
        if word.load(Ordering::Acquire) != expected {
            return false;
        }
        if let Some(d) = deadline {
            if has_passed(timespec_of(&elapsed_since(&origin)), d) {
                return true;
            }
        }
        pause();
        budget = budget - 1;
    }
    false
}

} // verus!
