//! The staged write: create a staging record beside the target, then promote it.
use vstd::prelude::*;

use crate::checksum::{fingerprint_of, generate_md5sum_path, md5sum, staging_name};
use crate::commit::{commit_md5sum_file, promote_advance, promote_pending, promote_start, Promote, PromoteV};
use crate::error::{Error, PathError, STORAGE_FULL_CODE};
use crate::fsop::{clone_bytes, clone_error, ErrorV, FsOp, FsReply, Next, NextV, OpV, ReplyV, result_view};
use crate::path::{as_absolute, file_name_of, with_file_name};
use crate::checksum::{is_hex, NONCE_LEN};
use crate::random::generate_random_string;

verus! {

/// Where a write stands.
pub enum WriteStage {
    /// Creating the staging record.
    Staging,
    /// Creating the target directly, for lack of space for the record.
    CreatingTarget,
    /// Promoting the record onto the target.
    Promoting(Promote),
    Finished(Result<(), Error>),
}

/// The view of a `WriteStage`.
pub ghost enum WriteStageV {
    Staging,
    CreatingTarget,
    Promoting(PromoteV),
    Finished(Result<(), ErrorV>),
}

/// A write in progress.
pub struct WriteSession {
    pub target: String,
    pub record: String,
    pub content: Vec<u8>,
    pub mode: Option<u32>,
    pub fallback: bool,
    pub stage: WriteStage,
}

/// The view of a `WriteSession`.
pub ghost struct WriteV {
    pub target: Seq<char>,
    pub record: Seq<char>,
    pub content: Seq<u8>,
    pub mode: Option<u32>,
    pub fallback: bool,
    pub stage: WriteStageV,
}

impl View for WriteStage {
    type V = WriteStageV;

    open spec fn view(&self) -> WriteStageV {
        match self {
            WriteStage::Staging => WriteStageV::Staging,
            WriteStage::CreatingTarget => WriteStageV::CreatingTarget,
            WriteStage::Promoting(p) => WriteStageV::Promoting(p@),
            WriteStage::Finished(r) => WriteStageV::Finished(result_view(*r)),
        }
    }
}

impl View for WriteSession {
    type V = WriteV;

    open spec fn view(&self) -> WriteV {
        WriteV {
            target: self.target@,
            record: self.record@,
            content: self.content@,
            mode: self.mode,
            fallback: self.fallback,
            stage: self.stage@,
        }
    }
}

/// The path of the staging record for writing `content` to `target` under `nonce`.
pub open spec fn record_path_of(target: Seq<char>, nonce: Seq<char>, content: Seq<u8>) -> Seq<char> {
    with_file_name(target, staging_name(file_name_of(target)->Some_0, nonce, fingerprint_of(content)))
}

/// The write of `content` to the absolute path `target`, before its first request.
pub open spec fn write_start(
    target: Seq<char>,
    content: Seq<u8>,
    mode: Option<u32>,
    fallback: bool,
    nonce: Seq<char>,
) -> WriteV {
    WriteV {
        target,
        record: record_path_of(target, nonce, content),
        content,
        mode,
        fallback,
        stage: WriteStageV::Staging,
    }
}

/// What the write in state `s` asks for.
pub open spec fn write_pending(s: WriteV) -> NextV<()> {
    match s.stage {
        WriteStageV::Staging => NextV::Perform(
            OpV::Create { path: s.record, mode: s.mode, content: s.content },
        ),
        WriteStageV::CreatingTarget => NextV::Perform(
            OpV::Create { path: s.target, mode: s.mode, content: s.content },
        ),
        WriteStageV::Promoting(p) => match promote_pending(p) {
            NextV::Perform(op) => NextV::Perform(op),
            NextV::Finish(Ok(_)) => NextV::Finish(Ok(())),
            NextV::Finish(Err(e)) => NextV::Finish(Err(e)),
        },
        WriteStageV::Finished(r) => NextV::Finish(r),
    }
}

/// The state after the write in state `s` receives `reply`.
pub open spec fn write_advance(s: WriteV, reply: ReplyV) -> WriteV {
    match s.stage {
        WriteStageV::Staging => match reply {
            ReplyV::Done => WriteV {
                stage: WriteStageV::Promoting(promote_start(s.record, s.target, s.fallback)),
                ..s
            },
            ReplyV::Failed(c) => if s.fallback && c == Some(STORAGE_FULL_CODE) {
                WriteV { stage: WriteStageV::CreatingTarget, ..s }
            } else {
                WriteV { stage: WriteStageV::Finished(Err(ErrorV::Io(c))), ..s }
            },
            _ => WriteV { stage: WriteStageV::Finished(Err(ErrorV::UnexpectedReply)), ..s },
        },
        WriteStageV::CreatingTarget => match reply {
            ReplyV::Done => WriteV { stage: WriteStageV::Finished(Ok(())), ..s },
            ReplyV::Failed(c) => WriteV { stage: WriteStageV::Finished(Err(ErrorV::Io(c))), ..s },
            _ => WriteV { stage: WriteStageV::Finished(Err(ErrorV::UnexpectedReply)), ..s },
        },
        WriteStageV::Promoting(p) => WriteV {
            stage: WriteStageV::Promoting(promote_advance(p, reply)),
            ..s
        },
        WriteStageV::Finished(_) => s,
    }
}

impl WriteSession {
    /// Starts writing `content` to the absolute path `target`, staging it under
    /// `nonce`; fails where `target` has no file name.
    pub fn new(target: &str, content: Vec<u8>, mode: Option<u32>, fallback: bool, nonce: &str) -> (r:
        Result<WriteSession, Error>)
        ensures
            match r {
                Ok(w) => file_name_of(target@) is Some && w@ == write_start(
                    target@,
                    content@,
                    mode,
                    fallback,
                    nonce@,
                ),
                Err(e) => file_name_of(target@) is None && e@ == ErrorV::PathResolution(
                    PathError::NoFileName,
                ),
            },
    {
        let checksum = md5sum(content.as_slice());
        let record = generate_md5sum_path(target, checksum.as_str(), nonce)?;
        Ok(
            WriteSession {
                target: target.to_owned(),
                record,
                content,
                mode,
                fallback,
                stage: WriteStage::Staging,
            },
        )
    }

    /// What the write asks for: the next request, or its result.
    pub fn next(&self) -> (n: Next<()>)
        ensures
            n@ == write_pending(self@),
    {
        match &self.stage {
            WriteStage::Staging => Next::Perform(
                FsOp::CreateFile {
                    path: self.record.clone(),
                    mode: self.mode,
                    content: clone_bytes(&self.content),
                },
            ),
            WriteStage::CreatingTarget => Next::Perform(
                FsOp::CreateFile {
                    path: self.target.clone(),
                    mode: self.mode,
                    content: clone_bytes(&self.content),
                },
            ),
            WriteStage::Promoting(p) => match p.next() {
                Next::Perform(op) => Next::Perform(op),
                Next::Finish(Ok(_)) => Next::Finish(Ok(())),
                Next::Finish(Err(e)) => Next::Finish(Err(e)),
            },
            WriteStage::Finished(r) => Next::Finish(
                match r {
                    Ok(()) => Ok(()),
                    Err(e) => Err(clone_error(e)),
                },
            ),
        }
    }

    /// Takes the outcome of the request that `next` asked for.
    pub fn resume(&mut self, reply: FsReply)
        ensures
            final(self)@ == write_advance(old(self)@, reply@),
    {
        match &mut self.stage {
            WriteStage::Staging => match reply {
                FsReply::Done => {
                    let p = commit_md5sum_file(self.record.as_str(), self.target.as_str(), self.fallback);
                    self.stage = WriteStage::Promoting(p);
                },
                FsReply::Failed(f) => {
                    if self.fallback && f.is_storage_full() {
                        self.stage = WriteStage::CreatingTarget;
                    } else {
                        self.stage = WriteStage::Finished(Err(Error::Io(f)));
                    }
                },
                _ => {
                    self.stage = WriteStage::Finished(Err(Error::UnexpectedReply));
                },
            },
            WriteStage::CreatingTarget => match reply {
                FsReply::Done => {
                    self.stage = WriteStage::Finished(Ok(()));
                },
                FsReply::Failed(f) => {
                    self.stage = WriteStage::Finished(Err(Error::Io(f)));
                },
                _ => {
                    self.stage = WriteStage::Finished(Err(Error::UnexpectedReply));
                },
            },
            WriteStage::Promoting(p) => {
                p.resume(reply);
            },
            WriteStage::Finished(_) => {},
        }
    }
}

/// Starts writing `content` to `path`: resolves the path against the current
/// directory and stages the content under a fresh nonce (from the entropy
/// source, or from the process identity `pid`). With `unsafe_fallback`, lack of
/// space for the staged protocol degrades to writing the target directly.
pub fn write_file(path: &str, content: Vec<u8>, mode: Option<u32>, unsafe_fallback: bool, pid: u32) -> (r:
    Result<WriteSession, Error>)
    ensures
        match r {
            Ok(w) => file_name_of(w@.target) is Some && exists|nonce: Seq<char>|
                nonce.len() == NONCE_LEN && is_hex(nonce) && w@ == #[trigger] write_start(
                    w@.target,
                    content@,
                    mode,
                    unsafe_fallback,
                    nonce,
                ),
            Err(e) => e@ is PathResolution,
        },
{
    let target = match as_absolute(path) {
        Ok(t) => t,
        Err(e) => {
            return Err(Error::PathResolution(e));
        },
    };
    let nonce = generate_random_string(pid);
    WriteSession::new(target.as_str(), content, mode, unsafe_fallback, nonce.as_str())
}

} // verus!
