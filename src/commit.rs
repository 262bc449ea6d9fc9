//! The promote sequence, which turns a verified staging record into the target:
//! read and verify the record, copy it to a temporary sibling, rename that onto
//! the target, and remove the record.
use vstd::prelude::*;

use crate::checksum::{
    fingerprint_of, parse_record, parse_staging_name, record_suffix, temp_suffix, verify_checksum,
};
use crate::error::{CommitStep, Error, STORAGE_FULL_CODE};
use crate::fsop::{clone_bytes, clone_error, ErrorV, FsOp, FsReply, Next, NextV, OpV, ReplyV, result_view};
use crate::path::{file_name_of, get_file_name, lemma_last_slash};
use crate::text::substring;
use vstd::string::StringExecFns;

verus! {

/// The path of the temporary commit file of a record: `.md5sum` replaced by `.tmp`.
pub open spec fn temp_path_of(record: Seq<char>) -> Seq<char> {
    record.subrange(0, record.len() - record_suffix().len()) + temp_suffix()
}

/// Whether `record` is a path whose final component is a staging record's name.
pub open spec fn names_record(record: Seq<char>) -> bool {
    file_name_of(record) matches Some(n) && parse_record(n) is Some
}

/// The fingerprint that the name of `record` carries.
pub open spec fn embedded_fingerprint(record: Seq<char>) -> Seq<char> {
    parse_record(file_name_of(record)->Some_0)->Some_0.2
}

/// Where a promote sequence stands.
pub enum PromoteStage {
    /// Reading the record's body.
    Reading,
    /// Copying the record to the temporary file.
    Copying,
    /// Renaming the temporary file onto the target.
    Renaming,
    /// Removing the record.
    Removing,
    /// Renaming the record itself onto the target, for lack of space to copy it.
    RenamingRecord,
    Finished(Result<Vec<u8>, Error>),
}

/// The view of a `PromoteStage`.
pub ghost enum PromoteStageV {
    Reading,
    Copying,
    Renaming,
    Removing,
    RenamingRecord,
    Finished(Result<Seq<u8>, ErrorV>),
}

/// A promote sequence in progress.
pub struct Promote {
    pub record: String,
    pub temp: String,
    pub target: String,
    pub fallback: bool,
    /// The record's body, once read and verified.
    pub content: Vec<u8>,
    pub stage: PromoteStage,
}

/// The view of a `Promote`.
pub ghost struct PromoteV {
    pub record: Seq<char>,
    pub temp: Seq<char>,
    pub target: Seq<char>,
    pub fallback: bool,
    pub content: Seq<u8>,
    pub stage: PromoteStageV,
}

impl View for PromoteStage {
    type V = PromoteStageV;

    open spec fn view(&self) -> PromoteStageV {
        match self {
            PromoteStage::Reading => PromoteStageV::Reading,
            PromoteStage::Copying => PromoteStageV::Copying,
            PromoteStage::Renaming => PromoteStageV::Renaming,
            PromoteStage::Removing => PromoteStageV::Removing,
            PromoteStage::RenamingRecord => PromoteStageV::RenamingRecord,
            PromoteStage::Finished(r) => PromoteStageV::Finished(result_view(*r)),
        }
    }
}

impl View for Promote {
    type V = PromoteV;

    open spec fn view(&self) -> PromoteV {
        PromoteV {
            record: self.record@,
            temp: self.temp@,
            target: self.target@,
            fallback: self.fallback,
            content: self.content@,
            stage: self.stage@,
        }
    }
}

/// The promote sequence for `record` onto `target`, before its first request.
pub open spec fn promote_start(record: Seq<char>, target: Seq<char>, fallback: bool) -> PromoteV {
    PromoteV {
        record,
        temp: if names_record(record) {
            temp_path_of(record)
        } else {
            Seq::empty()
        },
        target,
        fallback,
        content: Seq::empty(),
        stage: if names_record(record) {
            PromoteStageV::Reading
        } else {
            PromoteStageV::Finished(Err(ErrorV::NotARecord))
        },
    }
}

/// What the promote sequence in state `s` asks for.
pub open spec fn promote_pending(s: PromoteV) -> NextV<Seq<u8>> {
    match s.stage {
        PromoteStageV::Reading => NextV::Perform(OpV::Read { path: s.record }),
        PromoteStageV::Copying => NextV::Perform(OpV::Copy { from: s.record, to: s.temp }),
        PromoteStageV::Renaming => NextV::Perform(OpV::Rename { from: s.temp, to: s.target }),
        PromoteStageV::Removing => NextV::Perform(OpV::Remove { path: s.record }),
        PromoteStageV::RenamingRecord => NextV::Perform(
            OpV::Rename { from: s.record, to: s.target },
        ),
        PromoteStageV::Finished(r) => NextV::Finish(r),
    }
}

/// `s` finished with `r`.
pub open spec fn promote_finish(s: PromoteV, r: Result<Seq<u8>, ErrorV>) -> PromoteV {
    PromoteV { stage: PromoteStageV::Finished(r), ..s }
}

/// `s` moved on to `stage`.
pub open spec fn promote_goto(s: PromoteV, stage: PromoteStageV) -> PromoteV {
    PromoteV { stage, ..s }
}

/// The state after the promote sequence in state `s` receives `reply`.
pub open spec fn promote_advance(s: PromoteV, reply: ReplyV) -> PromoteV {
    match s.stage {
        PromoteStageV::Reading => match reply {
            ReplyV::Bytes(b) => if !names_record(s.record) {
                promote_finish(s, Err(ErrorV::NotARecord))
            } else if fingerprint_of(b) == embedded_fingerprint(s.record) {
                PromoteV { stage: PromoteStageV::Copying, content: b, ..s }
            } else {
                promote_finish(
                    s,
                    Err(ErrorV::ChecksumMismatch(embedded_fingerprint(s.record), fingerprint_of(b))),
                )
            },
            ReplyV::Failed(c) => promote_finish(s, Err(ErrorV::Commit(CommitStep::ReadRecord, c))),
            _ => promote_finish(s, Err(ErrorV::UnexpectedReply)),
        },
        PromoteStageV::Copying => match reply {
            ReplyV::Done => promote_goto(s, PromoteStageV::Renaming),
            ReplyV::Failed(c) => if s.fallback && c == Some(STORAGE_FULL_CODE) {
                promote_goto(s, PromoteStageV::RenamingRecord)
            } else {
                promote_finish(s, Err(ErrorV::Commit(CommitStep::CopyToTemp, c)))
            },
            _ => promote_finish(s, Err(ErrorV::UnexpectedReply)),
        },
        PromoteStageV::Renaming => match reply {
            ReplyV::Done => promote_goto(s, PromoteStageV::Removing),
            ReplyV::Failed(c) => promote_finish(
                s,
                Err(ErrorV::Commit(CommitStep::RenameToTarget, c)),
            ),
            _ => promote_finish(s, Err(ErrorV::UnexpectedReply)),
        },
        PromoteStageV::Removing => match reply {
            ReplyV::Done => promote_finish(s, Ok(s.content)),
            ReplyV::Failed(c) => promote_finish(s, Err(ErrorV::Commit(CommitStep::RemoveRecord, c))),
            _ => promote_finish(s, Err(ErrorV::UnexpectedReply)),
        },
        PromoteStageV::RenamingRecord => match reply {
            ReplyV::Done => promote_finish(s, Ok(s.content)),
            ReplyV::Failed(c) => promote_finish(
                s,
                Err(ErrorV::Commit(CommitStep::RenameRecordToTarget, c)),
            ),
            _ => promote_finish(s, Err(ErrorV::UnexpectedReply)),
        },
        PromoteStageV::Finished(_) => s,
    }
}

/// The temporary sibling of a staging record's path: `.md5sum` replaced by `.tmp`.
pub fn temp_path(record: &str) -> (r: String)
    requires
        record@.len() >= record_suffix().len(),
    ensures
        r@ == temp_path_of(record@),
{
    let n = record.unicode_len();
    let mut s = substring(record, 0, n - 7);
    proof {
        reveal_strlit(".tmp");
    }
    s.append(".tmp");
    assert(s@ =~= temp_path_of(record@));
    s
}

/// Starts the promote sequence that turns the staging record at `md5sum_path`
/// into the target `path`. With `unsafe_fallback`, a copy that fails for lack
/// of space is replaced by renaming the record itself onto the target.
pub fn commit_md5sum_file(md5sum_path: &str, path: &str, unsafe_fallback: bool) -> (r: Promote)
    ensures
        r@ == promote_start(md5sum_path@, path@, unsafe_fallback),
{
    let parsed = match get_file_name(md5sum_path) {
        Ok(name) => parse_staging_name(name.as_str()),
        Err(_) => None,
    };
    match parsed {
        Some(_) => {
            proof {
                lemma_last_slash(md5sum_path@);
            }
            let temp = temp_path(md5sum_path);
            Promote {
                record: md5sum_path.to_owned(),
                temp,
                target: path.to_owned(),
                fallback: unsafe_fallback,
                content: Vec::new(),
                stage: PromoteStage::Reading,
            }
        },
        None => {
            Promote {
                record: md5sum_path.to_owned(),
                temp: String::new(),
                target: path.to_owned(),
                fallback: unsafe_fallback,
                content: Vec::new(),
                stage: PromoteStage::Finished(Err(Error::NotARecord)),
            }
        },
    }
}

impl Promote {
    /// What the sequence asks for: the next request, or its result.
    pub fn next(&self) -> (n: Next<Vec<u8>>)
        ensures
            n@ == promote_pending(self@),
    {
        match &self.stage {
            PromoteStage::Reading => Next::Perform(FsOp::ReadFile { path: self.record.clone() }),
            PromoteStage::Copying => Next::Perform(
                FsOp::CopyFile { from: self.record.clone(), to: self.temp.clone() },
            ),
            PromoteStage::Renaming => Next::Perform(
                FsOp::RenameFile { from: self.temp.clone(), to: self.target.clone() },
            ),
            PromoteStage::Removing => Next::Perform(FsOp::RemoveFile { path: self.record.clone() }),
            PromoteStage::RenamingRecord => Next::Perform(
                FsOp::RenameFile { from: self.record.clone(), to: self.target.clone() },
            ),
            PromoteStage::Finished(r) => Next::Finish(
                match r {
                    Ok(c) => Ok(clone_bytes(c)),
                    Err(e) => Err(clone_error(e)),
                },
            ),
        }
    }

    /// Takes the outcome of the request that `next` asked for.
    pub fn resume(&mut self, reply: FsReply)
        ensures
            final(self)@ == promote_advance(old(self)@, reply@),
    {
        match &self.stage {
            PromoteStage::Reading => match reply {
                FsReply::Bytes(b) => match verify_checksum(self.record.as_str(), b) {
                    Ok(content) => {
                        self.content = content;
                        self.stage = PromoteStage::Copying;
                    },
                    Err(e) => {
                        self.stage = PromoteStage::Finished(Err(e));
                    },
                },
                FsReply::Failed(f) => {
                    self.stage = PromoteStage::Finished(
                        Err(Error::Commit { step: CommitStep::ReadRecord, cause: f }),
                    );
                },
                _ => {
                    self.stage = PromoteStage::Finished(Err(Error::UnexpectedReply));
                },
            },
            PromoteStage::Copying => match reply {
                FsReply::Done => {
                    self.stage = PromoteStage::Renaming;
                },
                FsReply::Failed(f) => {
                    if self.fallback && f.is_storage_full() {
                        self.stage = PromoteStage::RenamingRecord;
                    } else {
                        self.stage = PromoteStage::Finished(
                            Err(Error::Commit { step: CommitStep::CopyToTemp, cause: f }),
                        );
                    }
                },
                _ => {
                    self.stage = PromoteStage::Finished(Err(Error::UnexpectedReply));
                },
            },
            PromoteStage::Renaming => match reply {
                FsReply::Done => {
                    self.stage = PromoteStage::Removing;
                },
                FsReply::Failed(f) => {
                    self.stage = PromoteStage::Finished(
                        Err(Error::Commit { step: CommitStep::RenameToTarget, cause: f }),
                    );
                },
                _ => {
                    self.stage = PromoteStage::Finished(Err(Error::UnexpectedReply));
                },
            },
            PromoteStage::Removing => match reply {
                FsReply::Done => {
                    self.stage = PromoteStage::Finished(Ok(clone_bytes(&self.content)));
                },
                FsReply::Failed(f) => {
                    self.stage = PromoteStage::Finished(
                        Err(Error::Commit { step: CommitStep::RemoveRecord, cause: f }),
                    );
                },
                _ => {
                    self.stage = PromoteStage::Finished(Err(Error::UnexpectedReply));
                },
            },
            PromoteStage::RenamingRecord => match reply {
                FsReply::Done => {
                    self.stage = PromoteStage::Finished(Ok(clone_bytes(&self.content)));
                },
                FsReply::Failed(f) => {
                    self.stage = PromoteStage::Finished(
                        Err(Error::Commit { step: CommitStep::RenameRecordToTarget, cause: f }),
                    );
                },
                _ => {
                    self.stage = PromoteStage::Finished(Err(Error::UnexpectedReply));
                },
            },
            PromoteStage::Finished(_) => {},
        }
    }
}

} // verus!
