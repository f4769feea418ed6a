//! The lifecycle of a named shared region, as a state machine.
//!
//! The machine decides; the caller performs each action it asks for (open the
//! name, resize, query the length, map, initialize, unmap, unlink) and reports
//! how it went. This keeps the order of the steps and the clean-up after a failure
//! in one verified place: a creator that has taken the name gives it back on every
//! failure, unmapping first where it mapped, and an opener never unlinks.
use vstd::prelude::*;
use crate::error::{open_error, open_error_of, Error};

verus! {

/// Which of the two entry points runs.
#[derive(Clone, Copy, Debug, PartialEq, Eq, Structural)]
pub enum Role {
    /// `create`: takes the name exclusively and owns its removal.
    Create,
    /// `open`: attaches to a region that a creator published.
    Open,
}

/// What the caller does next.
#[derive(Clone, Copy, Debug, PartialEq, Eq, Structural)]
pub enum Action {
    /// Open the name read-write; with `exclusive`, create it and fail if it exists.
    OpenName { exclusive: bool },
    /// Give the object `size` bytes.
    Resize { size: i64 },
    /// Ask the object for its length.
    QueryLength,
    /// Map `len` bytes of the object shared and read-write.
    MapRegion { len: usize },
    /// Write the default value at the mapping, then sync it (best effort).
    Initialize,
    /// Write the mapping back to the object (best effort).
    Flush,
    /// Unmap the mapping.
    Unmap,
    /// Remove the name.
    Unlink,
    /// The handle is ready.
    Ready,
    /// The entry point fails with this error; nothing is left to clean up.
    Fail(Error),
}

/// How the last action went.
#[derive(Clone, Copy, Debug, PartialEq, Eq, Structural)]
pub enum Event {
    /// It succeeded.
    Done,
    /// The length query gave this length.
    Length(i64),
    /// The mapping starts at this address.
    Mapped(usize),
    /// It failed with this operating-system error code.
    Failed(i32),
}

/// The action the machine waits on.
#[derive(Clone, Copy, Debug, PartialEq, Eq, Structural)]
pub enum Stage {
    OpenName,
    Resize,
    QueryLength,
    MapRegion,
    Initialize,
    Unmap,
    Unlink,
    Finished,
}

/// A creation or opening in progress.
#[derive(Clone, Copy, Debug, PartialEq, Eq, Structural)]
pub struct Setup {
    pub role: Role,
    /// The size of the shared value.
    pub len: usize,
    /// The alignment of the shared value.
    pub align: usize,
    pub stage: Stage,
    /// The error to report once the clean-up is done.
    pub error: Option<Error>,
}

/// The largest size the resize call takes.
pub const MAX_LEN: u64 = 0x7fff_ffff_ffff_ffff;

/// A size the region can be given: not empty, and within the resize call's
/// signed argument.
pub open spec fn valid_len(len: usize) -> bool {
    0 < len && len as int <= MAX_LEN as int
}

/// Whether a mapping at `addr` can hold a value of alignment `align`.
pub open spec fn mapping_ok(addr: usize, align: usize) -> bool {
    addr != 0 && addr % align == 0
}

/// The error for a mapping at `addr` that is not usable.
pub open spec fn mapping_error_of(addr: usize) -> Error {
    if addr == 0 {
        Error::Mmap(0)
    } else {
        Error::AlignmentMismatch
    }
}

/// The action the machine asks for in `stage`, with its error pending.
pub open spec fn action_of(s: Setup) -> Action {
    match s.stage {
        Stage::OpenName => Action::OpenName { exclusive: s.role == Role::Create },
        Stage::Resize => Action::Resize { size: s.len as i64 },
        Stage::QueryLength => Action::QueryLength,
        Stage::MapRegion => Action::MapRegion { len: s.len },
        Stage::Initialize => Action::Initialize,
        Stage::Unmap => Action::Unmap,
        Stage::Unlink => Action::Unlink,
        Stage::Finished => match s.error {
            Some(e) => Action::Fail(e),
            None => Action::Ready,
        },
    }
}

/// A well-formed setup: a valid size and alignment; the clean-up stages carry
/// the error they will report, an opener never stands at a creator's stages,
/// and a creator never at an opener's.
pub open spec fn setup_wf(s: Setup) -> bool {
    &&& valid_len(s.len)
    &&& s.align > 0
    &&& (s.stage is Unmap || s.stage is Unlink ==> s.error is Some)
    &&& (s.stage is OpenName || s.stage is Resize || s.stage is QueryLength || s.stage is MapRegion
        || s.stage is Initialize ==> s.error is None)
    &&& (s.role == Role::Open ==> !(s.stage is Resize || s.stage is Initialize || s.stage is Unlink))
    &&& (s.role == Role::Create ==> !(s.stage is QueryLength))
}

impl Setup {
    fn at(self, stage: Stage, error: Option<Error>) -> (r: (Setup, Action))
        ensures
            r.0 == (Setup { stage, error, ..self }),
            r.1 == action_of(r.0),
    {
        let s = Setup { stage, error, ..self };
        let a = match stage {
            Stage::OpenName => Action::OpenName { exclusive: self.role == Role::Create },
            Stage::Resize => Action::Resize { size: self.len as i64 },
            Stage::QueryLength => Action::QueryLength,
            Stage::MapRegion => Action::MapRegion { len: self.len },
            Stage::Initialize => Action::Initialize,
            Stage::Unmap => Action::Unmap,
            Stage::Unlink => Action::Unlink,
            Stage::Finished => match error {
                Some(e) => Action::Fail(e),
                None => Action::Ready,
            },
        };
        (s, a)
    }

    /// Starts a creation or opening of a region for a value of `len` bytes and
    /// alignment `align`. A size that is empty or beyond the resize call's range
    /// fails at once with `InvalidLength`; otherwise the name is opened first.
    pub fn begin(role: Role, len: usize, align: usize) -> (r: (Setup, Action))
        requires
            align > 0,
        ensures
            valid_len(len) ==> setup_wf(r.0) && r.0.stage is OpenName,
            valid_len(len) ==> r.1 == (Action::OpenName { exclusive: role == Role::Create }),
            !valid_len(len) ==> r.0.stage is Finished && r.1 == Action::Fail(Error::InvalidLength),
            r.0.role == role && r.0.len == len && r.0.align == align,
            r.1 == action_of(r.0),
    {
        let s = Setup { role, len, align, stage: Stage::OpenName, error: None };
        if len == 0 || len as u64 > MAX_LEN {
            s.at(Stage::Finished, Some(Error::InvalidLength))
        } else {
            s.at(Stage::OpenName, None)
        }
    }

    /// The clean-up after `error` from a stage at which the name may have been
    /// created and the region mapped (`mapped`).
    fn fail_after(self, mapped: bool, error: Error) -> (r: (Setup, Action))
        ensures
            r.0 == (Setup {
                stage: if mapped {
                    Stage::Unmap
                } else if self.role == Role::Create {
                    Stage::Unlink
                } else {
                    Stage::Finished
                },
                error: Some(error),
                ..self
            }),
            r.1 == action_of(r.0),
    {
        if mapped {
            self.at(Stage::Unmap, Some(error))
        } else if self.role == Role::Create {
            self.at(Stage::Unlink, Some(error))
        } else {
            self.at(Stage::Finished, Some(error))
        }
    }

    /// The next state and action after the pending action went as `event` says.
    pub fn next(self, event: Event) -> (r: (Setup, Action))
        requires
            setup_wf(self),
            !(self.stage is Finished),
        ensures
            setup_wf(r.0),
            r.0.role == self.role && r.0.len == self.len && r.0.align == self.align,
            r.1 == action_of(r.0),
            // An opener never removes the name.
            self.role == Role::Open ==> !(r.1 is Unlink),
            // A creator that took the name reports a failure only after removing it.
            self.role == Role::Create && !(self.stage is OpenName) && r.1 is Fail ==> self.stage is Unlink,
            // A creator's handle is ready only once the default value was written.
            self.role == Role::Create && r.1 is Ready ==> self.stage is Initialize,
            // The name is removed only after any mapping is gone.
            r.1 is Unlink ==> self.stage is Resize || self.stage is MapRegion || self.stage is Unmap,
            // Opening the name.
            self.stage is OpenName && event is Failed ==> r.1 == Action::Fail(
                open_error_of(self.role == Role::Create, event->Failed_0),
            ),
            self.stage is OpenName && !(event is Failed) ==> r.1 == (if self.role == Role::Create {
                Action::Resize { size: self.len as i64 }
            } else {
                Action::QueryLength
            }),
            // Resizing.
            self.stage is Resize && event is Failed ==> r.1 == Action::Unlink && r.0.error == Some(
                Error::Resize(event->Failed_0),
            ),
            self.stage is Resize && !(event is Failed) ==> r.1 == (Action::MapRegion { len: self.len }),
            // Querying the length.
            self.stage is QueryLength ==> r.1 == match event {
                Event::Length(n) => if n == self.len as int {
                    Action::MapRegion { len: self.len }
                } else {
                    Action::Fail(Error::LengthMismatch)
                },
                Event::Failed(c) => Action::Fail(Error::Status(c)),
                _ => Action::Fail(Error::LengthMismatch),
            },
            // Mapping.
            self.stage is MapRegion && event is Failed ==> r.0.error == Some(Error::Mmap(event->Failed_0))
                && r.1 == (if self.role == Role::Create {
                Action::Unlink
            } else {
                Action::Fail(Error::Mmap(event->Failed_0))
            }),
            self.stage is MapRegion && event is Mapped ==> r.1 == (if mapping_ok(event->Mapped_0, self.align) {
                if self.role == Role::Create {
                    Action::Initialize
                } else {
                    Action::Ready
                }
            } else if event->Mapped_0 == 0 {
                if self.role == Role::Create {
                    Action::Unlink
                } else {
                    Action::Fail(Error::Mmap(0))
                }
            } else {
                Action::Unmap
            }),
            self.stage is MapRegion && event is Mapped && !mapping_ok(event->Mapped_0, self.align)
                ==> r.0.error == Some(mapping_error_of(event->Mapped_0)),
            // Initializing: a failed sync is not fatal.
            self.stage is Initialize ==> r.1 == Action::Ready,
            // Clean-up.
            self.stage is Unmap ==> r.1 == (if self.role == Role::Create {
                Action::Unlink
            } else {
                Action::Fail(self.error->0)
            }),
            self.stage is Unlink ==> r.1 == Action::Fail(self.error->0),
            // The clean-up keeps the error it will report.
            self.stage is Unmap || self.stage is Unlink ==> r.0.error == self.error,
    {
        match self.stage {
            Stage::OpenName => match event {
                Event::Failed(code) => self.at(
                    Stage::Finished,
                    Some(open_error(self.role == Role::Create, code)),
                ),
                _ => if self.role == Role::Create {
                    self.at(Stage::Resize, None)
                } else {
                    self.at(Stage::QueryLength, None)
                },
            },
            Stage::Resize => match event {
                Event::Failed(code) => self.fail_after(false, Error::Resize(code)),
                _ => self.at(Stage::MapRegion, None),
            },
            Stage::QueryLength => match event {
                Event::Length(n) => if n >= 0 && n as u64 == self.len as u64 {
                    self.at(Stage::MapRegion, None)
                } else {
                    self.at(Stage::Finished, Some(Error::LengthMismatch))
                },
                Event::Failed(code) => self.at(Stage::Finished, Some(Error::Status(code))),
                _ => self.at(Stage::Finished, Some(Error::LengthMismatch)),
            },
            Stage::MapRegion => match event {
                Event::Failed(code) => self.fail_after(false, Error::Mmap(code)),
                Event::Mapped(addr) => if addr == 0 {
                    self.fail_after(false, Error::Mmap(0))
                } else if addr % self.align != 0 {
                    self.fail_after(true, Error::AlignmentMismatch)
                } else if self.role == Role::Create {
                    self.at(Stage::Initialize, None)
                } else {
                    self.at(Stage::Finished, None)
                },
                _ => self.fail_after(false, Error::Mmap(0)),
            },
            Stage::Initialize => self.at(Stage::Finished, None),
            Stage::Unmap => {
                let e = self.error.unwrap();
                if self.role == Role::Create {
                    self.at(Stage::Unlink, Some(e))
                } else {
                    self.at(Stage::Finished, Some(e))
                }
            },
            _ => {
                let e = self.error.unwrap();
                self.at(Stage::Finished, Some(e))
            },
        }
    }
}

/// What a handle does when it is released, in order: sync the mapping (best
/// effort), unmap it, and, for the creator's handle only, remove the name.
pub fn teardown(role: Role) -> (r: Vec<Action>)
    ensures
        role == Role::Create ==> r@ == seq![Action::Flush, Action::Unmap, Action::Unlink],
        role == Role::Open ==> r@ == seq![Action::Flush, Action::Unmap],
{
    let mut steps: Vec<Action> = Vec::new();
    steps.push(Action::Flush);
    steps.push(Action::Unmap);
    if role == Role::Create {
        steps.push(Action::Unlink);
    }
    steps
}

} // verus!
