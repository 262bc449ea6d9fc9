//! The recovering read: finish or discard the staging records that interrupted
//! writes left beside the target, then return the target's content.
use vstd::prelude::*;

use crate::checksum::{is_record_for, parse_staging_name};
use crate::commit::{
    commit_md5sum_file, promote_advance, promote_pending, promote_start, temp_path, temp_path_of, Promote,
    PromoteStage, PromoteStageV, PromoteV,
};
use crate::error::Error;
use crate::fsop::{clone_bytes, clone_error, names_view, ErrorV, FsOp, FsReply, Next, NextV, OpV, ReplyV, result_view};
use crate::path::{as_absolute, file_name_of, get_file_name, get_parent_as_string, parent_of, replace_file_name, with_file_name};

verus! {

/// Where a read stands.
pub enum ReadStage {
    /// Listing the target's directory.
    Listing,
    /// Promoting the current candidate record.
    Promoting(Promote),
    /// Removing the current candidate record.
    DiscardingRecord,
    /// Removing the current candidate's temporary file.
    DiscardingTemp,
    /// Reading the target itself.
    Reading,
    Finished(Result<Vec<u8>, Error>),
}

/// The view of a `ReadStage`.
pub ghost enum ReadStageV {
    Listing,
    Promoting(PromoteV),
    DiscardingRecord,
    DiscardingTemp,
    Reading,
    Finished(Result<Seq<u8>, ErrorV>),
}

/// A read in progress.
pub struct ReadSession {
    pub target: String,
    pub dir: String,
    pub base: String,
    /// Paths of the staging records found for the target, in listing order.
    pub candidates: Vec<String>,
    /// The candidate being handled.
    pub index: usize,
    /// The content of the record that was promoted, if one was.
    pub chosen: Option<Vec<u8>>,
    pub stage: ReadStage,
}

/// The view of a `ReadSession`.
pub ghost struct ReadV {
    pub target: Seq<char>,
    pub dir: Seq<char>,
    pub base: Seq<char>,
    pub candidates: Seq<Seq<char>>,
    pub index: int,
    pub chosen: Option<Seq<u8>>,
    pub stage: ReadStageV,
}

impl View for ReadStage {
    type V = ReadStageV;

    open spec fn view(&self) -> ReadStageV {
        match self {
            ReadStage::Listing => ReadStageV::Listing,
            ReadStage::Promoting(p) => ReadStageV::Promoting(p@),
            ReadStage::DiscardingRecord => ReadStageV::DiscardingRecord,
            ReadStage::DiscardingTemp => ReadStageV::DiscardingTemp,
            ReadStage::Reading => ReadStageV::Reading,
            ReadStage::Finished(r) => ReadStageV::Finished(result_view(*r)),
        }
    }
}

/// The view of optional bytes.
pub open spec fn opt_bytes_view(o: Option<Vec<u8>>) -> Option<Seq<u8>> {
    match o {
        Some(v) => Some(v@),
        None => None,
    }
}

impl View for ReadSession {
    type V = ReadV;

    open spec fn view(&self) -> ReadV {
        ReadV {
            target: self.target@,
            dir: self.dir@,
            base: self.base@,
            candidates: names_view(self.candidates@),
            index: self.index as int,
            chosen: opt_bytes_view(self.chosen),
            stage: self.stage@,
        }
    }
}

/// The paths of the staging records for a target named `base` among the entry
/// names `names` of its directory, in the order of `names`.
pub open spec fn record_paths(names: Seq<Seq<char>>, target: Seq<char>, base: Seq<char>) -> Seq<Seq<char>>
    decreases names.len(),
{
    if names.len() == 0 {
        Seq::empty()
    } else {
        let rest = record_paths(names.drop_last(), target, base);
        if is_record_for(names.last(), base) {
            rest.push(with_file_name(target, names.last()))
        } else {
            rest
        }
    }
}

/// The read of the absolute path `target`, before its first request.
pub open spec fn read_start(target: Seq<char>) -> ReadV {
    let listable = file_name_of(target) is Some && parent_of(target) is Some;
    ReadV {
        target,
        dir: if listable { parent_of(target)->Some_0 } else { Seq::empty() },
        base: if listable { file_name_of(target)->Some_0 } else { Seq::empty() },
        candidates: Seq::empty(),
        index: 0,
        chosen: None,
        stage: if listable { ReadStageV::Listing } else { ReadStageV::Reading },
    }
}

/// What the read in state `s` asks for.
pub open spec fn read_pending(s: ReadV) -> NextV<Seq<u8>> {
    match s.stage {
        ReadStageV::Listing => NextV::Perform(OpV::List { dir: s.dir }),
        ReadStageV::Promoting(p) => promote_pending(p),
        ReadStageV::DiscardingRecord => NextV::Perform(OpV::Remove { path: s.candidates[s.index] }),
        ReadStageV::DiscardingTemp => NextV::Perform(
            OpV::Remove { path: temp_path_of(s.candidates[s.index]) },
        ),
        ReadStageV::Reading => NextV::Perform(OpV::Read { path: s.target }),
        ReadStageV::Finished(r) => NextV::Finish(r),
    }
}

/// Takes up the promote sequence `p` of the current candidate: once it has
/// finished, its content is kept if it succeeded, and the candidate is discarded.
pub open spec fn read_settle(s: ReadV, p: PromoteV) -> ReadV {
    match p.stage {
        PromoteStageV::Finished(r) => ReadV {
            chosen: match r {
                Ok(c) => Some(c),
                Err(_) => None,
            },
            stage: ReadStageV::DiscardingRecord,
            ..s
        },
        _ => ReadV { stage: ReadStageV::Promoting(p), ..s },
    }
}

/// Moves on to candidate `s.index`: promotes it while no record has been
/// adopted yet and discards it otherwise; after the last one, returns the
/// adopted content or reads the target.
pub open spec fn read_proceed(s: ReadV) -> ReadV {
    if s.index < s.candidates.len() {
        if s.chosen is None {
            read_settle(s, promote_start(s.candidates[s.index], s.target, false))
        } else {
            ReadV { stage: ReadStageV::DiscardingRecord, ..s }
        }
    } else {
        match s.chosen {
            Some(c) => ReadV { stage: ReadStageV::Finished(Ok(c)), ..s },
            None => ReadV { stage: ReadStageV::Reading, ..s },
        }
    }
}

/// The state after the read in state `s` receives `reply`.
pub open spec fn read_advance(s: ReadV, reply: ReplyV) -> ReadV {
    match s.stage {
        ReadStageV::Listing => match reply {
            ReplyV::Names(names) => read_proceed(
                ReadV { candidates: record_paths(names, s.target, s.base), index: 0, ..s },
            ),
            _ => ReadV { stage: ReadStageV::Reading, ..s },
        },
        ReadStageV::Promoting(p) => read_settle(s, promote_advance(p, reply)),
        ReadStageV::DiscardingRecord => ReadV { stage: ReadStageV::DiscardingTemp, ..s },
        ReadStageV::DiscardingTemp => read_proceed(ReadV { index: s.index + 1, ..s }),
        ReadStageV::Reading => match reply {
            ReplyV::Bytes(b) => ReadV { stage: ReadStageV::Finished(Ok(b)), ..s },
            ReplyV::Failed(c) => ReadV { stage: ReadStageV::Finished(Err(ErrorV::Io(c))), ..s },
            _ => ReadV { stage: ReadStageV::Finished(Err(ErrorV::UnexpectedReply)), ..s },
        },
        ReadStageV::Finished(_) => s,
    }
}

/// Every candidate is long enough to carry the record suffix, and the
/// position is within the candidates.
pub open spec fn read_wf_candidates(s: ReadV) -> bool {
    &&& forall|i: int| 0 <= i < s.candidates.len() ==> #[trigger] s.candidates[i].len() >= 7
    &&& 0 <= s.index <= s.candidates.len()
}

/// The well-formedness of a read session: candidates are record paths, and the
/// current one exists while one is being handled.
pub open spec fn read_wf(s: ReadV) -> bool {
    &&& read_wf_candidates(s)
    &&& (s.stage is Promoting || s.stage is DiscardingRecord || s.stage is DiscardingTemp) ==> s.index
        < s.candidates.len()
}

/// The paths of the staging records for a target named `base` among `names`.
pub fn find_records(names: &Vec<String>, target: &str, base: &str) -> (r: Vec<String>)
    ensures
        names_view(r@) == record_paths(names_view(names@), target@, base@),
        forall|i: int| 0 <= i < r@.len() ==> #[trigger] r@[i]@.len() >= 51,
{
    let mut r: Vec<String> = Vec::new();
    let mut i: usize = 0;
    while i < names.len()
        invariant
            0 <= i <= names@.len(),
            names_view(r@) == record_paths(names_view(names@.subrange(0, i as int)), target@, base@),
            forall|j: int| 0 <= j < r@.len() ==> #[trigger] r@[j]@.len() >= 51,
        decreases names@.len() - i,
    {
        let name = &names[i];
        let ghost before = names_view(names@.subrange(0, i as int));
        let ghost after = names_view(names@.subrange(0, i + 1));
        assert(after.drop_last() =~= before);
        assert(after.last() == name@);
        match parse_staging_name(name.as_str()) {
            Some(p) => {
                if p.base == base.to_owned() {
                    proof {
                        crate::path::lemma_last_slash(target@);
                    }
                    r.push(replace_file_name(target, name.as_str()));
                    assert(names_view(r@) =~= record_paths(after, target@, base@));
                } else {
                    assert(names_view(r@) =~= record_paths(after, target@, base@));
                }
            },
            None => {
                assert(names_view(r@) =~= record_paths(after, target@, base@));
            },
        }
        i = i + 1;
    }
    assert(names@.subrange(0, names@.len() as int) =~= names@);
    r
}

impl ReadSession {
    /// Starts reading the absolute path `target`.
    pub fn new(target: &str) -> (r: ReadSession)
        ensures
            r@ == read_start(target@),
            read_wf(r@),
    {
        let base = get_file_name(target);
        let dir = get_parent_as_string(target);
        let ghost empty: Seq<String> = Seq::empty();
        assert(names_view(empty) =~= Seq::<Seq<char>>::empty());
        match (base, dir) {
            (Ok(base), Ok(dir)) => ReadSession {
                target: target.to_owned(),
                dir,
                base,
                candidates: Vec::new(),
                index: 0,
                chosen: None,
                stage: ReadStage::Listing,
            },
            _ => ReadSession {
                target: target.to_owned(),
                dir: String::new(),
                base: String::new(),
                candidates: Vec::new(),
                index: 0,
                chosen: None,
                stage: ReadStage::Reading,
            },
        }
    }

    /// What the read asks for: the next request, or its result.
    pub fn next(&self) -> (n: Next<Vec<u8>>)
        requires
            read_wf(self@),
        ensures
            n@ == read_pending(self@),
    {
        match &self.stage {
            ReadStage::Listing => Next::Perform(FsOp::ListDir { dir: self.dir.clone() }),
            ReadStage::Promoting(p) => p.next(),
            ReadStage::DiscardingRecord => Next::Perform(
                FsOp::RemoveFile { path: self.candidates[self.index].clone() },
            ),
            ReadStage::DiscardingTemp => {
                let record = &self.candidates[self.index];
                assert(record@ == self@.candidates[self.index as int]);
                Next::Perform(FsOp::RemoveFile { path: temp_path(record.as_str()) })
            },
            ReadStage::Reading => Next::Perform(FsOp::ReadFile { path: self.target.clone() }),
            ReadStage::Finished(r) => Next::Finish(
                match r {
                    Ok(c) => Ok(clone_bytes(c)),
                    Err(e) => Err(clone_error(e)),
                },
            ),
        }
    }

    fn settle(&mut self, p: Promote)
        requires
            old(self)@.index < old(self)@.candidates.len(),
            read_wf(old(self)@),
        ensures
            final(self)@ == read_settle(old(self)@, p@),
            read_wf(final(self)@),
    {
        match p.stage {
            PromoteStage::Finished(r) => {
                self.chosen = match r {
                    Ok(c) => Some(c),
                    Err(_) => None,
                };
                self.stage = ReadStage::DiscardingRecord;
            },
            _ => {
                self.stage = ReadStage::Promoting(p);
            },
        }
    }

    fn proceed(&mut self)
        requires
            read_wf_candidates(old(self)@),
        ensures
            final(self)@ == read_proceed(old(self)@),
            read_wf(final(self)@),
    {
        if self.index < self.candidates.len() {
            if self.chosen.is_none() {
                let p = commit_md5sum_file(self.candidates[self.index].as_str(), self.target.as_str(), false);
                self.settle(p);
            } else {
                self.stage = ReadStage::DiscardingRecord;
            }
        } else {
            match &self.chosen {
                Some(c) => {
                    self.stage = ReadStage::Finished(Ok(clone_bytes(c)));
                },
                None => {
                    self.stage = ReadStage::Reading;
                },
            }
        }
    }

    /// Takes the outcome of the request that `next` asked for.
    pub fn resume(&mut self, reply: FsReply)
        requires
            read_wf(old(self)@),
        ensures
            final(self)@ == read_advance(old(self)@, reply@),
            read_wf(final(self)@),
    {
        let ghost s = self@;
        match &mut self.stage {
            ReadStage::Listing => match reply {
                FsReply::Names(names) => {
                    self.candidates = find_records(&names, self.target.as_str(), self.base.as_str());
                    self.index = 0;
                    self.proceed();
                },
                _ => {
                    self.stage = ReadStage::Reading;
                },
            },
            ReadStage::Promoting(p) => {
                p.resume(reply);
                let outcome: Option<Option<Vec<u8>>> = match &p.stage {
                    PromoteStage::Finished(Ok(c)) => Some(Some(clone_bytes(c))),
                    PromoteStage::Finished(Err(_)) => Some(None),
                    _ => None,
                };
                if let Some(chosen) = outcome {
                    self.chosen = chosen;
                    self.stage = ReadStage::DiscardingRecord;
                }
            },
            ReadStage::DiscardingRecord => {
                self.stage = ReadStage::DiscardingTemp;
            },
            ReadStage::DiscardingTemp => {
                assert(s.stage is DiscardingTemp);
                assert(self.index < self.candidates.len());
                self.index = self.index + 1;
                self.proceed();
            },
            ReadStage::Reading => match reply {
                FsReply::Bytes(b) => {
                    self.stage = ReadStage::Finished(Ok(b));
                },
                FsReply::Failed(f) => {
                    self.stage = ReadStage::Finished(Err(Error::Io(f)));
                },
                _ => {
                    self.stage = ReadStage::Finished(Err(Error::UnexpectedReply));
                },
            },
            ReadStage::Finished(_) => {},
        }
    }
}

/// Starts reading `path`, resolved against the current directory.
pub fn read_file(path: &str) -> (r: Result<ReadSession, Error>)
    ensures
        match r {
            Ok(s) => s@ == read_start(s@.target) && read_wf(s@),
            Err(e) => e@ is PathResolution,
        },
{
    match as_absolute(path) {
        Ok(target) => Ok(ReadSession::new(target.as_str())),
        Err(e) => Err(Error::PathResolution(e)),
    }
}

} // verus!
