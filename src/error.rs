//! Errors of the library.
use vstd::prelude::*;

verus! {

/// The operating-system code for "no space left on device".
pub const STORAGE_FULL_CODE: i32 = 28;

/// An I/O failure as the filesystem reported it.
#[derive(Debug)]
pub struct IoFault {
    /// The raw operating-system error code, where there is one.
    pub code: Option<i32>,
    /// A description of the failure, for diagnostics.
    pub message: String,
}

impl IoFault {
    /// Whether the failure is "no space left on device".
    pub open spec fn spec_is_storage_full(&self) -> bool {
        self.code == Some(STORAGE_FULL_CODE)
    }

    pub fn is_storage_full(&self) -> (r: bool)
        ensures
            r == self.spec_is_storage_full(),
    {
        match self.code {
            Some(c) => c == STORAGE_FULL_CODE,
            None => false,
        }
    }
}

/// Why a path could not be used.
#[derive(Clone, Copy, Debug, PartialEq, Eq, Structural)]
pub enum PathError {
    /// The path could not be made absolute.
    NotResolved,
    /// The path has no final component.
    NoFileName,
    /// The path has no parent.
    NoParent,
}

/// The step of the promote sequence during which an I/O failure occurred.
#[derive(Clone, Copy, Debug, PartialEq, Eq, Structural)]
pub enum CommitStep {
    ReadRecord,
    CopyToTemp,
    RenameToTarget,
    RemoveRecord,
    RenameRecordToTarget,
}

#[derive(Debug)]
pub enum Error {
    /// The path cannot be made absolute, or lacks a file name or a parent.
    PathResolution(PathError),
    /// A name that does not follow the reserved scheme of staging records.
    NotARecord,
    /// A staging record whose body does not match the fingerprint in its name.
    ChecksumMismatch { expected: String, actual: String },
    /// An I/O failure outside the promote sequence.
    Io(IoFault),
    /// An I/O failure inside the promote sequence, with the step where it occurred.
    Commit { step: CommitStep, cause: IoFault },
    /// The filesystem answered a request with a reply of the wrong kind.
    UnexpectedReply,
}

/// Whether the I/O failure under `err`, if any, is "no space left on device".
pub open spec fn spec_is_storage_full_error(err: &Error) -> bool {
    match err {
        Error::Io(f) => f.spec_is_storage_full(),
        Error::Commit { cause, .. } => cause.spec_is_storage_full(),
        _ => false,
    }
}

/// Whether `err` stems from "no space left on device".
pub fn is_storage_full_error(err: &Error) -> (r: bool)
    ensures
        r == spec_is_storage_full_error(err),
{
    match err {
        Error::Io(f) => f.is_storage_full(),
        Error::Commit { cause, .. } => cause.is_storage_full(),
        _ => false,
    }
}

} // verus!
