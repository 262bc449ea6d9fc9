//! An ideal filesystem that answers the sessions' requests, and runs of the
//! sessions against it. The laws of the protocol are stated over these runs.
use vstd::prelude::*;

use crate::commit::{promote_advance, promote_pending, PromoteV};
use crate::durable::{durable_advance, durable_pending, DurableV, StepV, SysOpV};
use crate::error::STORAGE_FULL_CODE;
use crate::fsop::{NextV, OpV, ReplyV};
use crate::read::{read_advance, read_pending, ReadV};
use crate::write::{write_advance, write_pending, WriteV};

verus! {

/// The files of a filesystem: each path with its content.
pub type Files = Map<Seq<char>, Seq<u8>>;

/// The operating-system code for "no such file or directory".
pub const NOT_FOUND_CODE: i32 = 2;

/// The outcome of performing `op` on `files`: the files afterwards and the reply.
/// A directory listing answers `listing`; with `no_room`, every copy fails for
/// lack of space. A failed copy removes its destination, as the cleanup of the
/// durable copy does.
pub open spec fn apply(files: Files, op: OpV, listing: Seq<Seq<char>>, no_room: bool) -> (Files, ReplyV) {
    let missing = ReplyV::Failed(Some(NOT_FOUND_CODE));
    match op {
        OpV::Create { path, content, .. } => (files.insert(path, content), ReplyV::Done),
        OpV::Copy { from, to } => if no_room {
            (files.remove(to), ReplyV::Failed(Some(STORAGE_FULL_CODE)))
        } else if files.contains_key(from) {
            (files.insert(to, files[from]), ReplyV::Done)
        } else {
            (files.remove(to), missing)
        },
        OpV::Rename { from, to } => if files.contains_key(from) {
            (files.remove(from).insert(to, files[from]), ReplyV::Done)
        } else {
            (files, missing)
        },
        OpV::Remove { path } => if files.contains_key(path) {
            (files.remove(path), ReplyV::Done)
        } else {
            (files, missing)
        },
        OpV::Read { path } => if files.contains_key(path) {
            (files, ReplyV::Bytes(files[path]))
        } else {
            (files, missing)
        },
        OpV::List { .. } => (files, ReplyV::Names(listing)),
    }
}

/// Runs a promote sequence for at most `fuel` requests: the files afterwards,
/// and what the sequence then asks for.
pub open spec fn run_promote(files: Files, s: PromoteV, no_room: bool, fuel: nat) -> (Files, NextV<Seq<u8>>)
    decreases fuel,
{
    match promote_pending(s) {
        NextV::Perform(op) => if fuel == 0 {
            (files, NextV::Perform(op))
        } else {
            let (f, r) = apply(files, op, Seq::empty(), no_room);
            run_promote(f, promote_advance(s, r), no_room, (fuel - 1) as nat)
        },
        NextV::Finish(r) => (files, NextV::Finish(r)),
    }
}

/// Runs a write for at most `fuel` requests.
pub open spec fn run_write(files: Files, s: WriteV, fuel: nat) -> (Files, NextV<()>)
    decreases fuel,
{
    match write_pending(s) {
        NextV::Perform(op) => if fuel == 0 {
            (files, NextV::Perform(op))
        } else {
            let (f, r) = apply(files, op, Seq::empty(), false);
            run_write(f, write_advance(s, r), (fuel - 1) as nat)
        },
        NextV::Finish(r) => (files, NextV::Finish(r)),
    }
}

/// Runs a read for at most `fuel` requests; the directory listing answers `listing`.
pub open spec fn run_read(files: Files, s: ReadV, listing: Seq<Seq<char>>, fuel: nat) -> (Files, NextV<Seq<u8>>)
    decreases fuel,
{
    match read_pending(s) {
        NextV::Perform(op) => if fuel == 0 {
            (files, NextV::Perform(op))
        } else {
            let (f, r) = apply(files, op, listing, false);
            run_read(f, read_advance(s, r), listing, (fuel - 1) as nat)
        },
        NextV::Finish(r) => (files, NextV::Finish(r)),
    }
}

/// The outcome of one system call on `files`: the files afterwards, and `None`
/// for success or `Some(code)` for a failure. An fsync changes no file.
pub open spec fn sys_apply(files: Files, op: SysOpV) -> (Files, Option<Option<i32>>) {
    let missing = Some(Some(NOT_FOUND_CODE));
    match op {
        SysOpV::Write { path, content, .. } => (files.insert(path, content), None),
        SysOpV::Copy { from, to } => if files.contains_key(from) {
            (files.insert(to, files[from]), None)
        } else {
            (files, missing)
        },
        SysOpV::Rename { from, to } => if files.contains_key(from) {
            (files.remove(from).insert(to, files[from]), None)
        } else {
            (files, missing)
        },
        SysOpV::Unlink { path } => if files.contains_key(path) {
            (files.remove(path), None)
        } else {
            (files, missing)
        },
        SysOpV::Sync { .. } => (files, None),
    }
}

/// Runs a durable primitive for at most `fuel` system calls.
pub open spec fn run_durable(files: Files, d: DurableV, fuel: nat) -> (Files, StepV)
    decreases fuel,
{
    match durable_pending(d) {
        StepV::Call(op) => if fuel == 0 {
            (files, StepV::Call(op))
        } else {
            let (f, r) = sys_apply(files, op);
            run_durable(f, durable_advance(d, r), (fuel - 1) as nat)
        },
        StepV::Finish(r) => (files, StepV::Finish(r)),
    }
}

} // verus!
