//! Typed regions of memory shared between processes, with synchronization
//! primitives that keep no process-private state.
//!
//! A region holds one value of a type `T` that implements `Shareable`. One
//! process creates the region under a name, others open it by that name, and all
//! of them see the same bytes. The primitives here (`Mutex`, `RwLock`, `Condvar`)
//! coordinate through words inside the region itself, so they work across
//! processes.
use vstd::prelude::*;

pub mod condvar;
pub mod error;
pub mod futex;
pub mod mutex;
pub mod region;
pub mod rwlock;

pub use condvar::{Condvar, WaitTimeoutResult};
pub use error::Error;
pub use mutex::{Mutex, MutexGuard};
pub use region::{Action, Event, Role, Setup};
pub use rwlock::{RwLock, RwLockReadGuard, RwLockWriteGuard};

verus! {

/// A type whose values can live in a shared region.
///
/// Implement it only for types whose byte image is self-contained: fixed-width
/// integers and atomics, fixed-size arrays and records of such fields, and the
/// `Mutex`, `RwLock` and `Condvar` of this crate. No pointers, references or
/// owning handles (`Box`, `Vec`, `String`, `Rc`, `Arc`, collections), since the
/// other processes map the region at other addresses; and no synchronization type
/// of the standard library, whose waits are private to one process. The type must
/// not be zero-sized, and its `Default` value is what a creator writes into a new
/// region.
pub trait Shareable: Default + Sync + Sized {}

/// Starts creating (`Role::Create`) or opening (`Role::Open`) a region for a
/// value of type `T`: the region's length is the size of `T` and its mapping must
/// meet the alignment of `T`. A zero-sized `T` fails with `InvalidLength`.
pub fn setup_for<T: Shareable>(role: Role) -> (r: (Setup, Action))
    ensures
        r.0.role == role,
        r.1 == region::action_of(r.0),
        region::valid_len(r.0.len) ==> r.0.stage is OpenName,
        r.0.len as nat == vstd::layout::size_of::<T>(),
        r.0.align as nat == vstd::layout::align_of::<T>(),
        region::valid_len(r.0.len) ==> region::setup_wf(r.0) && r.1 == (Action::OpenName {
            exclusive: role == Role::Create,
        }),
        !region::valid_len(r.0.len) ==> r.1 == Action::Fail(Error::InvalidLength),
{
    broadcast use vstd::layout::align_nonzero;

    Setup::begin(role, core::mem::size_of::<T>(), core::mem::align_of::<T>())
}

} // verus!
