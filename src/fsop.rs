//! The filesystem requests that the commit and recovery sessions hand to their
//! caller, the replies they expect back, and an ideal filesystem that answers them.
//!
//! Each request is one durable primitive: the caller performs it with the fsync
//! ordering and cleanup that the primitive prescribes, and reports the outcome.
use vstd::prelude::*;

use crate::error::{CommitStep, Error, IoFault, PathError};

verus! {

/// One durable filesystem primitive to perform.
pub enum FsOp {
    /// Create or truncate `path`, write `content` (with permission bits `mode`
    /// if given), fsync it and its parent directory; remove it again on failure.
    CreateFile { path: String, mode: Option<u32>, content: Vec<u8> },
    /// Copy `from` to `to`, fsync `to` and its parent directory; remove `to` on failure.
    CopyFile { from: String, to: String },
    /// Rename `from` to `to`, then fsync `to` and its parent directory.
    RenameFile { from: String, to: String },
    /// Remove `path`, then fsync its parent directory.
    RemoveFile { path: String },
    /// Read the whole of `path`.
    ReadFile { path: String },
    /// List the names of the entries of directory `dir`.
    ListDir { dir: String },
}

/// The view of an `FsOp`.
pub ghost enum OpV {
    Create { path: Seq<char>, mode: Option<u32>, content: Seq<u8> },
    Copy { from: Seq<char>, to: Seq<char> },
    Rename { from: Seq<char>, to: Seq<char> },
    Remove { path: Seq<char> },
    Read { path: Seq<char> },
    List { dir: Seq<char> },
}

impl View for FsOp {
    type V = OpV;

    open spec fn view(&self) -> OpV {
        match self {
            FsOp::CreateFile { path, mode, content } => OpV::Create {
                path: path@,
                mode: *mode,
                content: content@,
            },
            FsOp::CopyFile { from, to } => OpV::Copy { from: from@, to: to@ },
            FsOp::RenameFile { from, to } => OpV::Rename { from: from@, to: to@ },
            FsOp::RemoveFile { path } => OpV::Remove { path: path@ },
            FsOp::ReadFile { path } => OpV::Read { path: path@ },
            FsOp::ListDir { dir } => OpV::List { dir: dir@ },
        }
    }
}

/// The outcome of a request.
pub enum FsReply {
    /// The request succeeded.
    Done,
    /// The bytes that a read returned.
    Bytes(Vec<u8>),
    /// The entry names that a listing returned, in the listing's order.
    Names(Vec<String>),
    /// The request failed.
    Failed(IoFault),
}

/// The view of an `FsReply`.
pub ghost enum ReplyV {
    Done,
    Bytes(Seq<u8>),
    Names(Seq<Seq<char>>),
    /// A failure, with its operating-system code.
    Failed(Option<i32>),
}

/// The views of a sequence of names.
pub open spec fn names_view(v: Seq<String>) -> Seq<Seq<char>> {
    v.map_values(|s: String| s@)
}

impl View for FsReply {
    type V = ReplyV;

    open spec fn view(&self) -> ReplyV {
        match self {
            FsReply::Done => ReplyV::Done,
            FsReply::Bytes(b) => ReplyV::Bytes(b@),
            FsReply::Names(n) => ReplyV::Names(names_view(n@)),
            FsReply::Failed(f) => ReplyV::Failed(f.code),
        }
    }
}

/// The view of an `Error`: I/O failures by their code.
pub ghost enum ErrorV {
    PathResolution(PathError),
    NotARecord,
    ChecksumMismatch(Seq<char>, Seq<char>),
    Io(Option<i32>),
    Commit(CommitStep, Option<i32>),
    UnexpectedReply,
}

impl View for Error {
    type V = ErrorV;

    open spec fn view(&self) -> ErrorV {
        match self {
            Error::PathResolution(p) => ErrorV::PathResolution(*p),
            Error::NotARecord => ErrorV::NotARecord,
            Error::ChecksumMismatch { expected, actual } => ErrorV::ChecksumMismatch(
                expected@,
                actual@,
            ),
            Error::Io(f) => ErrorV::Io(f.code),
            Error::Commit { step, cause } => ErrorV::Commit(*step, cause.code),
            Error::UnexpectedReply => ErrorV::UnexpectedReply,
        }
    }
}

/// The view of a result.
pub open spec fn result_view<T: View>(r: Result<T, Error>) -> Result<T::V, ErrorV> {
    match r {
        Ok(v) => Ok(v@),
        Err(e) => Err(e@),
    }
}

/// What a session asks for next: a request to perform, or its final result.
pub enum Next<T> {
    Perform(FsOp),
    Finish(Result<T, Error>),
}

/// The view of a `Next`.
pub ghost enum NextV<V> {
    Perform(OpV),
    Finish(Result<V, ErrorV>),
}

impl<T: View> View for Next<T> {
    type V = NextV<T::V>;

    open spec fn view(&self) -> NextV<T::V> {
        match self {
            Next::Perform(op) => NextV::Perform(op@),
            Next::Finish(r) => NextV::Finish(result_view(*r)),
        }
    }
}

/// A copy of `v`.
pub(crate) fn clone_bytes(v: &Vec<u8>) -> (r: Vec<u8>)
    ensures
        r@ == v@,
{
    let r = v.clone();
    assert(r@ =~= v@);
    r
}

/// A copy of `f`.
pub fn clone_fault(f: &IoFault) -> (r: IoFault)
    ensures
        r.code == f.code,
{
    IoFault { code: f.code, message: f.message.clone() }
}

/// A copy of `e`.
pub fn clone_error(e: &Error) -> (r: Error)
    ensures
        r@ == e@,
{
    match e {
        Error::PathResolution(p) => Error::PathResolution(*p),
        Error::NotARecord => Error::NotARecord,
        Error::ChecksumMismatch { expected, actual } => Error::ChecksumMismatch {
            expected: expected.clone(),
            actual: actual.clone(),
        },
        Error::Io(f) => Error::Io(clone_fault(f)),
        Error::Commit { step, cause } => Error::Commit { step: *step, cause: clone_fault(cause) },
        Error::UnexpectedReply => Error::UnexpectedReply,
    }
}

} // verus!
