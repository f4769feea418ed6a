//! Why a region could not be created or opened.
use vstd::prelude::*;

verus! {

/// The operating system's code for "the name exists already".
pub const EEXIST: i32 = 17;

/// The operating system's code for "no object has this name".
pub const ENOENT: i32 = 2;

/// A failure of `create` or `open`. Where the operating system reported the
/// failure, its error code is kept as the cause.
#[derive(Clone, Copy, Debug, PartialEq, Eq, Structural)]
pub enum Error {
    /// `create` found a region of that name already.
    NameInUse,
    /// `open` found no region of that name.
    NoSuchName,
    /// The name could not be opened for another reason.
    Open(i32),
    /// The region could not be given the size of the shared value.
    Resize(i32),
    /// The length of an opened region could not be queried.
    Status(i32),
    /// The region could not be mapped.
    Mmap(i32),
    /// The mapping does not meet the alignment of the shared value.
    AlignmentMismatch,
    /// The opened region's length differs from the size of the shared value.
    LengthMismatch,
    /// The shared value is empty, or too large for the resize call.
    InvalidLength,
}

/// The error for a failed opening of a name with code `code`: when creating, an
/// existing name is `NameInUse`; when opening, a missing one is `NoSuchName`.
pub open spec fn open_error_of(creating: bool, code: i32) -> Error {
    if creating && code == EEXIST {
        Error::NameInUse
    } else if !creating && code == ENOENT {
        Error::NoSuchName
    } else {
        Error::Open(code)
    }
}

pub fn open_error(creating: bool, code: i32) -> (r: Error)
    ensures
        r == open_error_of(creating, code),
{
    if creating && code == EEXIST {
        Error::NameInUse
    } else if !creating && code == ENOENT {
        Error::NoSuchName
    } else {
        Error::Open(code)
    }
}

impl Error {
    /// The operating system's error code behind this error, if there is one.
    pub fn os_code(&self) -> (r: Option<i32>)
        ensures
            r is Some <==> (self is Open || self is Resize || self is Status || self is Mmap),
            *self matches Error::Open(c) ==> r == Some(c),
            *self matches Error::Resize(c) ==> r == Some(c),
            *self matches Error::Status(c) ==> r == Some(c),
            *self matches Error::Mmap(c) ==> r == Some(c),
    {
        match self {
            Error::Open(c) | Error::Resize(c) | Error::Status(c) | Error::Mmap(c) => Some(*c),
            _ => None,
        }
    }

    /// A short description of the failure.
    pub fn message(&self) -> (r: &'static str)
        ensures
            *self is NameInUse ==> r@ == "shared memory name is already in use"@,
            *self is NoSuchName ==> r@ == "no shared memory region has this name"@,
            *self is Open ==> r@ == "unable to open shared memory region"@,
            *self is Resize ==> r@ == "unable to resize shared memory region"@,
            *self is Status ==> r@ == "unable to query the length of shared memory region"@,
            *self is Mmap ==> r@ == "unable to map shared object"@,
            *self is AlignmentMismatch ==> r@ == "shared memory region doesn't support object alignment"@,
            *self is LengthMismatch ==> r@ == "shared memory region length differs from object"@,
            *self is InvalidLength ==> r@ == "object size is zero or too large for a shared memory region"@,
    {
        match self {
            Error::NameInUse => "shared memory name is already in use",
            Error::NoSuchName => "no shared memory region has this name",
            Error::Open(_) => "unable to open shared memory region",
            Error::Resize(_) => "unable to resize shared memory region",
            Error::Status(_) => "unable to query the length of shared memory region",
            Error::Mmap(_) => "unable to map shared object",
            Error::AlignmentMismatch => "shared memory region doesn't support object alignment",
            Error::LengthMismatch => "shared memory region length differs from object",
            Error::InvalidLength => "object size is zero or too large for a shared memory region",
        }
    }
}

} // verus!
