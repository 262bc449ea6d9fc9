//! The laws of the protocol, stated over runs of the sessions against the ideal
//! filesystem of `model`.
use vstd::prelude::*;

use crate::checksum::{
    fingerprint_of, is_record_for, parse_record, record_suffix, staging_name, temp_suffix,
    valid_parts,
};
use crate::commit::{
    embedded_fingerprint, names_record, promote_advance, promote_pending, promote_start,
    temp_path_of, PromoteStageV,
};
use crate::error::{CommitStep, STORAGE_FULL_CODE};
use crate::checksum::{is_hex, lemma_fingerprint, lemma_parse_staging_name, NONCE_LEN};
use crate::commit::PromoteV;
use crate::fsop::{ErrorV, NextV, OpV, ReplyV};
use crate::write::{record_path_of, write_advance, write_start, WriteStageV, WriteV};
use crate::durable::{durable_advance, plan_of, StepV, SysOpV};
use crate::model::{apply, run_durable, run_promote, run_read, run_write, sys_apply, Files, NOT_FOUND_CODE};
use crate::path::parent_of;
use crate::read::{read_advance, read_pending, read_proceed, read_settle, read_start, read_wf, record_paths, ReadStageV, ReadV};
use crate::path::{file_name_of, last_slash, lemma_last_slash, tail_of, with_file_name};

verus! {

/// The name of the temporary commit file of the staging record named `name`.
pub open spec fn temp_name_of(name: Seq<char>) -> Seq<char> {
    name.subrange(0, name.len() - record_suffix().len()) + temp_suffix()
}

/// `s` holds no path separator.
pub open spec fn has_no_slash(s: Seq<char>) -> bool {
    forall|i: int| 0 <= i < s.len() ==> s[i] != '/'
}

proof fn lemma_last_slash_append(a: Seq<char>, b: Seq<char>)
    requires
        has_no_slash(b),
    ensures
        last_slash(a + b) == last_slash(a),
    decreases b.len(),
{
    if b.len() == 0 {
        assert(a + b =~= a);
    } else {
        assert((a + b).drop_last() =~= a + b.drop_last());
        assert((a + b).last() == b.last());
        lemma_last_slash_append(a, b.drop_last());
    }
}

/// The final component of a path holds no separator, and the path is its
/// prefix up to the last separator followed by that component.
proof fn lemma_file_name(p: Seq<char>)
    requires
        file_name_of(p) is Some,
    ensures
        has_no_slash(file_name_of(p)->Some_0),
        p == with_file_name(p, file_name_of(p)->Some_0),
{
    lemma_last_slash(p);
    let k = last_slash(p);
    let b = file_name_of(p)->Some_0;
    assert forall|i: int| 0 <= i < b.len() implies b[i] != '/' by {
        assert(b[i] == p[k + 1 + i]);
    }
    assert(p =~= with_file_name(p, b));
}

/// A name that follows the reserved scheme is the name built from its parts.
proof fn lemma_parse_inverse(n: Seq<char>)
    requires
        parse_record(n) is Some,
    ensures
        n == staging_name(parse_record(n)->Some_0.0, parse_record(n)->Some_0.1, parse_record(n)->Some_0.2),
        valid_parts(parse_record(n)->Some_0.0, parse_record(n)->Some_0.1, parse_record(n)->Some_0.2),
{
    let t = parse_record(n)->Some_0;
    let l = n.len();
    assert(n =~= staging_name(t.0, t.1, t.2)) by {
        let s = staging_name(t.0, t.1, t.2);
        assert(s.len() == l);
        assert forall|i: int| 0 <= i < l implies n[i] == s[i] by {
            if l - 7 <= i {
                assert(n.subrange(l - 7, l as int)[i - (l - 7)] == n[i]);
            }
        }
    }
}

/// The siblings of `target` named `a` and `b` are the same path only if the
/// names are the same.
proof fn lemma_sibling_injective(target: Seq<char>, a: Seq<char>, b: Seq<char>)
    requires
        with_file_name(target, a) == with_file_name(target, b),
    ensures
        a == b,
{
    let k = last_slash(target) + 1;
    lemma_last_slash(target);
    assert(a =~= with_file_name(target, a).subrange(k, with_file_name(target, a).len() as int));
    assert(b =~= with_file_name(target, b).subrange(k, with_file_name(target, b).len() as int));
}

/// Facts about the path of a staging record named `n` beside `target`.
proof fn lemma_record_path(target: Seq<char>, n: Seq<char>)
    requires
        file_name_of(target) matches Some(base) && is_record_for(n, base),
    ensures
        names_record(with_file_name(target, n)),
        file_name_of(with_file_name(target, n)) == Some(n),
        embedded_fingerprint(with_file_name(target, n)) == parse_record(n)->Some_0.2,
        with_file_name(target, n).len() == target.len() + 50,
        temp_path_of(with_file_name(target, n)) == with_file_name(target, temp_name_of(n)),
        temp_path_of(with_file_name(target, n)).len() == target.len() + 47,
        has_no_slash(n),
{
    let base = file_name_of(target)->Some_0;
    lemma_file_name(target);
    lemma_last_slash(target);
    lemma_parse_inverse(n);
    let t = parse_record(n)->Some_0;
    assert(t.0 == base);
    assert(has_no_slash(n)) by {
        assert forall|i: int| 0 <= i < n.len() implies n[i] != '/' by {
            let s = staging_name(t.0, t.1, t.2);
            if 1 <= i < 1 + base.len() {
                assert(s[i] == base[i - 1]);
            } else if 2 + base.len() <= i < 10 + base.len() {
                assert(s[i] == t.1[i - 2 - base.len()]);
            } else if 11 + base.len() <= i < 43 + base.len() {
                assert(s[i] == t.2[i - 11 - base.len()]);
            }
        }
    }
    let prefix = target.subrange(0, last_slash(target) + 1);
    let rec = with_file_name(target, n);
    assert(last_slash(prefix) == last_slash(target)) by {
        if last_slash(target) >= 0 {
            assert(prefix.drop_last() =~= target.subrange(0, last_slash(target)));
            assert(prefix.last() == '/');
        } else {
            assert(prefix.len() == 0);
        }
    }
    lemma_last_slash_append(prefix, n);
    assert(tail_of(rec) =~= n);
    assert(n.len() >= 51);
    assert(file_name_of(rec) == Some(n)) by {
        if n == seq!['.'] || n == seq!['.', '.'] {
            assert(n.len() <= 2);
        }
    }
    assert(target.len() == prefix.len() + base.len());
    assert(temp_path_of(rec) =~= with_file_name(target, temp_name_of(n)));
}

/// A staging record for `target` named `name` whose body matches its fingerprint.
pub open spec fn valid_record(files: Files, target: Seq<char>, name: Seq<char>) -> bool {
    &&& file_name_of(target) matches Some(base) && is_record_for(name, base)
    &&& files.contains_key(with_file_name(target, name))
    &&& fingerprint_of(files[with_file_name(target, name)]) == parse_record(name)->Some_0.2
}

/// The files after a promote sequence has finished with a valid record: the
/// target holds the record's content, and neither record nor temporary file is left.
pub open spec fn promoted(files: Files, target: Seq<char>, name: Seq<char>) -> Files {
    let rec = with_file_name(target, name);
    files.remove(temp_path_of(rec)).insert(target, files[rec]).remove(rec)
}

/// The promote sequence of a valid record, with room to copy it, reads and
/// copies it, renames the copy onto the target and removes the record.
proof fn lemma_promote_valid(files: Files, target: Seq<char>, name: Seq<char>, fallback: bool)
    requires
        valid_record(files, target, name),
    ensures
        run_promote(files, promote_start(with_file_name(target, name), target, fallback), false, 4)
            == (promoted(files, target, name), NextV::<Seq<u8>>::Finish(Ok(files[with_file_name(target, name)]))),
        run_promote(files, promote_start(with_file_name(target, name), target, fallback), false, 3).0
            == files.remove(temp_path_of(with_file_name(target, name))).insert(
            target,
            files[with_file_name(target, name)],
        ),
{
    let rec = with_file_name(target, name);
    let tmp = temp_path_of(rec);
    let c = files[rec];
    lemma_record_path(target, name);
    let s0 = promote_start(rec, target, fallback);
    assert(promote_pending(s0) == NextV::<Seq<u8>>::Perform(OpV::Read { path: rec }));
    let s1 = promote_advance(s0, ReplyV::Bytes(c));
    assert(s1.stage == PromoteStageV::Copying);
    let f1 = files.insert(tmp, c);
    assert(apply(files, OpV::Copy { from: rec, to: tmp }, Seq::empty(), false) == (f1, ReplyV::Done));
    let s2 = promote_advance(s1, ReplyV::Done);
    assert(s2.stage == PromoteStageV::Renaming);
    assert(f1[tmp] == c);
    let f2 = f1.remove(tmp).insert(target, c);
    assert(apply(f1, OpV::Rename { from: tmp, to: target }, Seq::empty(), false) == (f2, ReplyV::Done));
    let s3 = promote_advance(s2, ReplyV::Done);
    assert(s3.stage == PromoteStageV::Removing);
    assert(f2.contains_key(rec));
    let f3 = f2.remove(rec);
    let s4 = promote_advance(s3, ReplyV::Done);
    assert(s4.stage == PromoteStageV::Finished(Ok(c)));
    assert(run_promote(f3, s4, false, 0) == (f3, NextV::<Seq<u8>>::Finish(Ok(c))));
    assert(run_promote(f2, s3, false, 1) == run_promote(f3, s4, false, 0));
    assert(run_promote(f1, s2, false, 2) == run_promote(f2, s3, false, 1));
    assert(run_promote(files, s1, false, 3) == run_promote(f1, s2, false, 2));
    assert(run_promote(files, s0, false, 4) == run_promote(files, s1, false, 3));
    assert(run_promote(f2, s3, false, 0).0 == f2);
    assert(run_promote(f1, s2, false, 1) == run_promote(f2, s3, false, 0));
    assert(run_promote(files, s1, false, 2) == run_promote(f1, s2, false, 1));
    assert(run_promote(files, s0, false, 3) == run_promote(files, s1, false, 2));
    assert(f3 =~= promoted(files, target, name));
    assert(f2 =~= files.remove(tmp).insert(target, c));
}

/// Promoting a valid staging record a second time, after a crash that struck
/// between the rename onto the target and the removal of the record, yields
/// the same target content as the first time and leaves no record or
/// temporary file behind.
pub proof fn law_promote_idempotent(files: Files, target: Seq<char>, name: Seq<char>, fallback: bool)
    requires
        valid_record(files, target, name),
    ensures
        ({
            let rec = with_file_name(target, name);
            let start = promote_start(rec, target, fallback);
            let once = run_promote(files, start, false, 4);
            let crashed = run_promote(files, start, false, 3).0;
            let again = run_promote(crashed, start, false, 4);
            &&& once.1 == NextV::<Seq<u8>>::Finish(Ok(files[rec]))
            &&& again.1 == once.1
            &&& again.0 == once.0
            &&& once.0[target] == files[rec]
            &&& !once.0.contains_key(rec)
            &&& !once.0.contains_key(temp_path_of(rec))
        }),
{
    let rec = with_file_name(target, name);
    let tmp = temp_path_of(rec);
    let c = files[rec];
    lemma_record_path(target, name);
    lemma_promote_valid(files, target, name, fallback);
    let crashed = files.remove(tmp).insert(target, c);
    assert(valid_record(crashed, target, name)) by {
        assert(crashed[rec] == c);
    }
    lemma_promote_valid(crashed, target, name, fallback);
    assert(promoted(crashed, target, name) =~= promoted(files, target, name));
}

/// When there is no room to copy a valid staging record: with the fallback
/// enabled, the record itself is renamed onto the target, which then holds its
/// content, and no temporary copy is left; with the fallback disabled, the
/// sequence fails with the storage-full error of the copy and leaves every file
/// but the failed copy, the target included, as it was.
pub proof fn law_storage_full_fallback(files: Files, target: Seq<char>, name: Seq<char>)
    requires
        valid_record(files, target, name),
    ensures
        ({
            let rec = with_file_name(target, name);
            run_promote(files, promote_start(rec, target, true), true, 3) == (
                files.remove(temp_path_of(rec)).remove(rec).insert(target, files[rec]),
                NextV::<Seq<u8>>::Finish(Ok(files[rec])),
            )
        }),
        ({
            let rec = with_file_name(target, name);
            run_promote(files, promote_start(rec, target, false), true, 2) == (
                files.remove(temp_path_of(rec)),
                NextV::<Seq<u8>>::Finish(
                    Err(ErrorV::Commit(CommitStep::CopyToTemp, Some(STORAGE_FULL_CODE))),
                ),
            )
        }),
{
    let rec = with_file_name(target, name);
    let c = files[rec];
    lemma_record_path(target, name);
    let full = ReplyV::Failed(Some(STORAGE_FULL_CODE));

    let s0 = promote_start(rec, target, true);
    let s1 = promote_advance(s0, ReplyV::Bytes(c));
    assert(s1.stage == PromoteStageV::Copying);
    let s2 = promote_advance(s1, full);
    assert(s2.stage == PromoteStageV::RenamingRecord);
    let g = files.remove(temp_path_of(rec));
    assert(g[rec] == c);
    let f = g.remove(rec).insert(target, c);
    let s3 = promote_advance(s2, ReplyV::Done);
    assert(s3.stage == PromoteStageV::Finished(Ok(c)));
    assert(run_promote(f, s3, true, 0) == (f, NextV::<Seq<u8>>::Finish(Ok(c))));
    assert(run_promote(g, s2, true, 1) == run_promote(f, s3, true, 0));
    assert(run_promote(files, s1, true, 2) == run_promote(g, s2, true, 1));
    assert(run_promote(files, s0, true, 3) == run_promote(files, s1, true, 2));

    let t0 = promote_start(rec, target, false);
    let t1 = promote_advance(t0, ReplyV::Bytes(c));
    assert(t1.stage == PromoteStageV::Copying);
    let t2 = promote_advance(t1, full);
    let err = ErrorV::Commit(CommitStep::CopyToTemp, Some(STORAGE_FULL_CODE));
    assert(t2.stage == PromoteStageV::Finished(Err(err)));
    assert(run_promote(g, t2, true, 0) == (g, NextV::<Seq<u8>>::Finish(Err(err))));
    assert(run_promote(files, t1, true, 1) == run_promote(g, t2, true, 0));
    assert(run_promote(files, t0, true, 2) == run_promote(files, t1, true, 1));
}

/// Discarding the current candidate removes its record and its temporary file,
/// whether or not they exist, and moves on to the next candidate.
proof fn lemma_read_discard(files: Files, s: ReadV, listing: Seq<Seq<char>>, fuel: nat)
    requires
        s.stage == ReadStageV::DiscardingRecord,
        read_wf(s),
    ensures
        run_read(files, s, listing, fuel + 2) == run_read(
            files.remove(s.candidates[s.index]).remove(temp_path_of(s.candidates[s.index])),
            read_proceed(ReadV { index: s.index + 1, stage: ReadStageV::DiscardingTemp, ..s }),
            listing,
            fuel,
        ),
{
    let rec = s.candidates[s.index];
    let tmp = temp_path_of(rec);
    let (f1, r1) = apply(files, OpV::Remove { path: rec }, listing, false);
    assert(f1 =~= files.remove(rec));
    let s1 = read_advance(s, r1);
    assert(s1 == ReadV { stage: ReadStageV::DiscardingTemp, ..s });
    let (f2, r2) = apply(f1, OpV::Remove { path: tmp }, listing, false);
    assert(f2 =~= files.remove(rec).remove(tmp));
    assert(run_read(files, s, listing, fuel + 2) == run_read(f1, s1, listing, fuel + 1));
    assert(run_read(f1, s1, listing, fuel + 1) == run_read(f2, read_advance(s1, r2), listing, fuel));
}

/// Within a read, the promote sequence of a valid record takes four requests,
/// after which the read keeps the record's content and discards the candidate.
proof fn lemma_read_promote_valid(files: Files, s: ReadV, listing: Seq<Seq<char>>, fuel: nat, name: Seq<char>)
    requires
        valid_record(files, s.target, name),
        read_wf(s),
        s.candidates[s.index] == with_file_name(s.target, name),
        s.stage == ReadStageV::Promoting(promote_start(with_file_name(s.target, name), s.target, false)),
    ensures
        run_read(files, s, listing, fuel + 4) == run_read(
            promoted(files, s.target, name),
            ReadV {
                chosen: Some(files[with_file_name(s.target, name)]),
                stage: ReadStageV::DiscardingRecord,
                ..s
            },
            listing,
            fuel,
        ),
{
    let target = s.target;
    let rec = with_file_name(target, name);
    let tmp = temp_path_of(rec);
    let c = files[rec];
    lemma_record_path(target, name);
    let pr0 = promote_start(rec, target, false);
    let pr1 = promote_advance(pr0, ReplyV::Bytes(c));
    assert(pr1.stage == PromoteStageV::Copying);
    let pr2 = promote_advance(pr1, ReplyV::Done);
    let pr3 = promote_advance(pr2, ReplyV::Done);
    let pr4 = promote_advance(pr3, ReplyV::Done);
    assert(pr4.stage == PromoteStageV::Finished(Ok(c)));
    let f1 = files.insert(tmp, c);
    let f2 = f1.remove(tmp).insert(target, c);
    let f3 = f2.remove(rec);
    assert(f1[tmp] == c);
    assert(f2.contains_key(rec));
    let s1 = read_settle(s, pr1);
    let s2 = read_settle(s, pr2);
    let s3 = read_settle(s, pr3);
    let s4 = read_settle(s, pr4);
    assert(run_read(f2, s3, listing, fuel + 1) == run_read(f3, s4, listing, fuel));
    assert(run_read(f1, s2, listing, fuel + 2) == run_read(f2, s3, listing, fuel + 1));
    assert(run_read(files, s1, listing, fuel + 3) == run_read(f1, s2, listing, fuel + 2));
    assert(run_read(files, s, listing, fuel + 4) == run_read(files, s1, listing, fuel + 3));
    assert(f3 =~= promoted(files, target, name));
}

/// Recovery after a crash that left a valid staging record for the target: the
/// read returns the record's content, the target then holds it, and neither the
/// record nor its temporary file is left. `listing`, the directory listing, names
/// that record and no other record for the target.
pub proof fn law_recover_after_crash(files: Files, target: Seq<char>, name: Seq<char>, listing: Seq<Seq<char>>)
    requires
        valid_record(files, target, name),
        parent_of(target) is Some,
        record_paths(listing, target, file_name_of(target)->Some_0) == seq![with_file_name(target, name)],
    ensures
        ({
            let rec = with_file_name(target, name);
            let c = files[rec];
            let out = run_read(files, read_start(target), listing, 7);
            &&& out.1 == NextV::<Seq<u8>>::Finish(Ok(c))
            &&& out.0 == promoted(files, target, name)
            &&& out.0[target] == c
            &&& !out.0.contains_key(rec)
            &&& !out.0.contains_key(temp_path_of(rec))
        }),
{
    let rec = with_file_name(target, name);
    let tmp = temp_path_of(rec);
    let c = files[rec];
    lemma_record_path(target, name);
    let s0 = read_start(target);
    let s1 = read_advance(s0, ReplyV::Names(listing));
    assert(s1.candidates == seq![rec]);
    assert(s1.stage == ReadStageV::Promoting(promote_start(rec, target, false)));
    assert(run_read(files, s0, listing, 7) == run_read(files, s1, listing, 6));
    lemma_read_promote_valid(files, s1, listing, 2, name);
    let f = promoted(files, target, name);
    let s2 = ReadV { chosen: Some(c), stage: ReadStageV::DiscardingRecord, ..s1 };
    lemma_read_discard(f, s2, listing, 0);
    assert(f.remove(rec).remove(tmp) =~= f);
    let s3 = read_proceed(ReadV { index: 1, stage: ReadStageV::DiscardingTemp, ..s2 });
    assert(s3.stage == ReadStageV::Finished(Ok(c)));
}

/// A staging record whose body no longer matches the fingerprint in its name is
/// not adopted: the read removes it (and its temporary file) and returns what
/// the target holds, or a not-found error where there is no target.
/// `listing`, the directory listing, names that record and no other record for
/// the target.
pub proof fn law_tampered_record_discarded(
    files: Files,
    target: Seq<char>,
    name: Seq<char>,
    listing: Seq<Seq<char>>,
)
    requires
        file_name_of(target) matches Some(base) && is_record_for(name, base),
        parent_of(target) is Some,
        files.contains_key(with_file_name(target, name)),
        fingerprint_of(files[with_file_name(target, name)]) != parse_record(name)->Some_0.2,
        record_paths(listing, target, file_name_of(target)->Some_0) == seq![with_file_name(target, name)],
    ensures
        ({
            let rec = with_file_name(target, name);
            let out = run_read(files, read_start(target), listing, 5);
            &&& out.0 == files.remove(rec).remove(temp_path_of(rec))
            &&& !out.0.contains_key(rec)
            &&& out.1 == if files.contains_key(target) {
                NextV::<Seq<u8>>::Finish(Ok(files[target]))
            } else {
                NextV::<Seq<u8>>::Finish(Err(ErrorV::Io(Some(NOT_FOUND_CODE))))
            }
        }),
{
    let rec = with_file_name(target, name);
    let tmp = temp_path_of(rec);
    let b = files[rec];
    lemma_record_path(target, name);
    let s0 = read_start(target);
    let s1 = read_advance(s0, ReplyV::Names(listing));
    assert(s1.candidates == seq![rec]);
    assert(s1.stage == ReadStageV::Promoting(promote_start(rec, target, false)));
    assert(run_read(files, s0, listing, 5) == run_read(files, s1, listing, 4));
    let pr1 = promote_advance(promote_start(rec, target, false), ReplyV::Bytes(b));
    assert(pr1.stage is Finished);
    let s2 = read_settle(s1, pr1);
    assert(s2 == ReadV { chosen: None, stage: ReadStageV::DiscardingRecord, ..s1 });
    assert(run_read(files, s1, listing, 4) == run_read(files, s2, listing, 3));
    lemma_read_discard(files, s2, listing, 1);
    let f = files.remove(rec).remove(tmp);
    let s3 = read_proceed(ReadV { index: 1, stage: ReadStageV::DiscardingTemp, ..s2 });
    assert(s3.stage == ReadStageV::Reading);
    assert(f.contains_key(target) == files.contains_key(target));
    assert(f.contains_key(target) ==> f[target] == files[target]);
    let (f4, r4) = apply(f, OpV::Read { path: target }, listing, false);
    assert(run_read(f, s3, listing, 1) == run_read(f4, read_advance(s3, r4), listing, 0));
}

/// Two valid staging records for the same target with the same content, under
/// different nonces, resolve to one: the read returns that content, the target
/// holds it, and neither record nor temporary file is left. `listing`, the
/// directory listing, names these two records and no other record for the target.
pub proof fn law_leftovers_resolved_to_one(
    files: Files,
    target: Seq<char>,
    first: Seq<char>,
    second: Seq<char>,
    listing: Seq<Seq<char>>,
)
    requires
        valid_record(files, target, first),
        valid_record(files, target, second),
        first != second,
        files[with_file_name(target, first)] == files[with_file_name(target, second)],
        parent_of(target) is Some,
        record_paths(listing, target, file_name_of(target)->Some_0) == seq![
            with_file_name(target, first),
            with_file_name(target, second),
        ],
    ensures
        ({
            let r1 = with_file_name(target, first);
            let r2 = with_file_name(target, second);
            let c = files[r1];
            let out = run_read(files, read_start(target), listing, 9);
            &&& out.1 == NextV::<Seq<u8>>::Finish(Ok(c))
            &&& out.0[target] == c
            &&& !out.0.contains_key(r1)
            &&& !out.0.contains_key(r2)
            &&& !out.0.contains_key(temp_path_of(r1))
            &&& !out.0.contains_key(temp_path_of(r2))
        }),
{
    let r1 = with_file_name(target, first);
    let r2 = with_file_name(target, second);
    let t1 = temp_path_of(r1);
    let t2 = temp_path_of(r2);
    let c = files[r1];
    lemma_record_path(target, first);
    lemma_record_path(target, second);
    assert(r1 != r2) by {
        if r1 == r2 {
            lemma_sibling_injective(target, first, second);
        }
    }
    let s0 = read_start(target);
    let s1 = read_advance(s0, ReplyV::Names(listing));
    assert(s1.candidates == seq![r1, r2]);
    assert(s1.stage == ReadStageV::Promoting(promote_start(r1, target, false)));
    assert(run_read(files, s0, listing, 9) == run_read(files, s1, listing, 8));
    lemma_read_promote_valid(files, s1, listing, 4, first);
    let f = promoted(files, target, first);
    let s2 = ReadV { chosen: Some(c), stage: ReadStageV::DiscardingRecord, ..s1 };
    lemma_read_discard(f, s2, listing, 2);
    let g = f.remove(r1).remove(t1);
    let s3 = read_proceed(ReadV { index: 1, stage: ReadStageV::DiscardingTemp, ..s2 });
    assert(s3.stage == ReadStageV::DiscardingRecord);
    assert(s3.index == 1);
    lemma_read_discard(g, s3, listing, 0);
    let h = g.remove(r2).remove(t2);
    let s4 = read_proceed(ReadV { index: 2, stage: ReadStageV::DiscardingTemp, ..s3 });
    assert(s4.stage == ReadStageV::Finished(Ok(c)));
    assert(h[target] == c);
}

/// What a write asks for while it promotes, seen through the promote sequence.
pub open spec fn lift_next(n: NextV<Seq<u8>>) -> NextV<()> {
    match n {
        NextV::Perform(op) => NextV::Perform(op),
        NextV::Finish(Ok(_)) => NextV::Finish(Ok(())),
        NextV::Finish(Err(e)) => NextV::Finish(Err(e)),
    }
}

/// A write that is promoting runs as its promote sequence does.
proof fn lemma_write_promoting(files: Files, w: WriteV, p: PromoteV, fuel: nat)
    ensures
        run_write(files, WriteV { stage: WriteStageV::Promoting(p), ..w }, fuel) == (
            run_promote(files, p, false, fuel).0,
            lift_next(run_promote(files, p, false, fuel).1),
        ),
    decreases fuel,
{
    let s = WriteV { stage: WriteStageV::Promoting(p), ..w };
    match promote_pending(p) {
        NextV::Perform(op) => {
            if fuel > 0 {
                let (f, r) = apply(files, op, Seq::empty(), false);
                assert(write_advance(s, r) == WriteV {
                    stage: WriteStageV::Promoting(promote_advance(p, r)),
                    ..w
                });
                lemma_write_promoting(f, w, promote_advance(p, r), (fuel - 1) as nat);
            }
        },
        NextV::Finish(_) => {},
    }
}

/// Names none of which is a staging record for `base` yield no candidates.
proof fn lemma_no_record_paths(names: Seq<Seq<char>>, target: Seq<char>, base: Seq<char>)
    requires
        forall|i: int| 0 <= i < names.len() ==> !is_record_for(#[trigger] names[i], base),
    ensures
        record_paths(names, target, base) == Seq::<Seq<char>>::empty(),
    decreases names.len(),
{
    if names.len() > 0 {
        let p = names.drop_last();
        assert forall|i: int| 0 <= i < p.len() implies !is_record_for(#[trigger] p[i], base) by {
            assert(p[i] == names[i]);
        }
        lemma_no_record_paths(p, target, base);
        assert(!is_record_for(names[names.len() - 1], base));
    }
}

/// No staging record for `target` is present in `files`.
pub open spec fn no_leftovers(files: Files, target: Seq<char>) -> bool {
    forall|n: Seq<char>| #[trigger] is_record_for(n, file_name_of(target)->Some_0) ==> !files.contains_key(
        with_file_name(target, n),
    )
}

/// Writing `content` to `target` and then reading it back returns `content`,
/// for any content, permission bits, fallback choice and nonce, where no
/// staging record for the target was left behind before the write. The write
/// itself leaves neither its staging record nor its temporary file. `listing`,
/// the directory listing of the read, names files present after the write.
pub proof fn law_round_trip(
    files: Files,
    target: Seq<char>,
    content: Seq<u8>,
    mode: Option<u32>,
    fallback: bool,
    nonce: Seq<char>,
    listing: Seq<Seq<char>>,
)
    requires
        file_name_of(target) is Some,
        parent_of(target) is Some,
        nonce.len() == NONCE_LEN,
        is_hex(nonce),
        no_leftovers(files, target),
        forall|i: int| 0 <= i < listing.len() ==> run_write(
            files,
            write_start(target, content, mode, fallback, nonce),
            5,
        ).0.contains_key(with_file_name(target, #[trigger] listing[i])),
    ensures
        ({
            let written = run_write(files, write_start(target, content, mode, fallback, nonce), 5);
            &&& written.1 == NextV::<()>::Finish(Ok(()))
            &&& written.0[target] == content
            &&& !written.0.contains_key(record_path_of(target, nonce, content))
            &&& !written.0.contains_key(temp_path_of(record_path_of(target, nonce, content)))
            &&& run_read(written.0, read_start(target), listing, 2) == (
                written.0,
                NextV::<Seq<u8>>::Finish(Ok(content)),
            )
        }),
{
    let base = file_name_of(target)->Some_0;
    let fp = fingerprint_of(content);
    lemma_fingerprint(content);
    let name = staging_name(base, nonce, fp);
    lemma_parse_staging_name(base, nonce, fp);
    let rec = with_file_name(target, name);
    assert(is_record_for(name, base));
    lemma_record_path(target, name);
    let w0 = write_start(target, content, mode, fallback, nonce);
    assert(w0.record == rec);
    let f1 = files.insert(rec, content);
    let w1 = write_advance(w0, ReplyV::Done);
    let p = promote_start(rec, target, fallback);
    assert(w1 == WriteV { stage: WriteStageV::Promoting(p), ..w0 });
    assert(run_write(files, w0, 5) == run_write(f1, w1, 4));
    assert(valid_record(f1, target, name));
    lemma_promote_valid(f1, target, name, fallback);
    lemma_write_promoting(f1, w0, p, 4);
    let f = promoted(f1, target, name);
    assert(run_write(files, w0, 5) == (f, NextV::<()>::Finish(Ok(()))));
    assert forall|i: int| 0 <= i < listing.len() implies !is_record_for(#[trigger] listing[i], base) by {
        let n = listing[i];
        if is_record_for(n, base) {
            lemma_record_path(target, n);
            let q = with_file_name(target, n);
            assert(f.contains_key(q));
            assert(q != rec);
            assert(q != target);
            assert(files.contains_key(q));
        }
    }
    lemma_no_record_paths(listing, target, base);
    let s0 = read_start(target);
    let s1 = read_advance(s0, ReplyV::Names(listing));
    assert(s1.stage == ReadStageV::Reading);
    assert(run_read(f, s0, listing, 2) == run_read(f, s1, listing, 1));
    assert(f[target] == content);
    let s2 = read_advance(s1, ReplyV::Bytes(content));
    assert(s2.stage == ReadStageV::Finished(Ok(content)));
    assert(run_read(f, s1, listing, 1) == run_read(f, s2, listing, 0));
}

/// `p` is the path of a staging record for a target named `base`, beside `target`.
pub open spec fn record_sibling(p: Seq<char>, target: Seq<char>, base: Seq<char>) -> bool {
    exists|m: Seq<char>| is_record_for(m, base) && p == with_file_name(target, m)
}

/// `f` and `g` agree on the file at `q`: both lack it, or both hold it with the same content.
pub open spec fn same_at(f: Files, g: Files, q: Seq<char>) -> bool {
    &&& f.contains_key(q) == g.contains_key(q)
    &&& f.contains_key(q) ==> f[q] == g[q]
}

/// Whether performing `op` may change the file at `q`.
pub open spec fn may_change(op: OpV, q: Seq<char>) -> bool {
    match op {
        OpV::Create { path, .. } => path == q,
        OpV::Copy { to, .. } => to == q,
        OpV::Rename { from, to } => from == q || to == q,
        OpV::Remove { path } => path == q,
        OpV::Read { .. } => false,
        OpV::List { .. } => false,
    }
}

proof fn lemma_apply_elsewhere(files: Files, op: OpV, listing: Seq<Seq<char>>, no_room: bool, q: Seq<char>)
    requires
        !may_change(op, q),
    ensures
        same_at(apply(files, op, listing, no_room).0, files, q),
{
}

proof fn lemma_record_paths_siblings(names: Seq<Seq<char>>, target: Seq<char>, base: Seq<char>)
    ensures
        forall|i: int| 0 <= i < record_paths(names, target, base).len() ==> record_sibling(
            #[trigger] record_paths(names, target, base)[i],
            target,
            base,
        ),
    decreases names.len(),
{
    if names.len() > 0 {
        lemma_record_paths_siblings(names.drop_last(), target, base);
        let rest = record_paths(names.drop_last(), target, base);
        let all = record_paths(names, target, base);
        assert forall|i: int| 0 <= i < all.len() implies record_sibling(#[trigger] all[i], target, base) by {
            if i < rest.len() {
                assert(all[i] == rest[i]);
            } else {
                assert(is_record_for(names.last(), base));
                assert(all[i] == with_file_name(target, names.last()));
            }
        }
    }
}

/// What every state of a read of `target` satisfies: its candidates are staging
/// records for `base` beside the target, and the promote sequence in progress
/// works on the current candidate, its temporary file and the target.
pub open spec fn read_scope(s: ReadV, target: Seq<char>, base: Seq<char>) -> bool {
    &&& s.target == target
    &&& s.stage is Listing ==> s.base == base
    &&& 0 <= s.index <= s.candidates.len()
    &&& (s.stage is Promoting || s.stage is DiscardingRecord || s.stage is DiscardingTemp) ==> s.index
        < s.candidates.len()
    &&& forall|i: int| 0 <= i < s.candidates.len() ==> record_sibling(#[trigger] s.candidates[i], target, base)
    &&& s.stage matches ReadStageV::Promoting(p) ==> p.record == s.candidates[s.index] && p.temp == temp_path_of(
        p.record,
    ) && p.target == target
}

proof fn lemma_read_scope_settle(s: ReadV, p: PromoteV, target: Seq<char>, base: Seq<char>)
    requires
        read_scope(ReadV { stage: ReadStageV::DiscardingRecord, ..s }, target, base),
        p.record == s.candidates[s.index],
        p.temp == temp_path_of(p.record),
        p.target == target,
    ensures
        read_scope(read_settle(s, p), target, base),
{
}

proof fn lemma_read_scope_proceed(s: ReadV, target: Seq<char>, base: Seq<char>)
    requires
        s.target == target,
        0 <= s.index <= s.candidates.len(),
        forall|i: int| 0 <= i < s.candidates.len() ==> record_sibling(#[trigger] s.candidates[i], target, base),
        file_name_of(target) == Some(base),
    ensures
        read_scope(read_proceed(s), target, base),
{
    if s.index < s.candidates.len() && s.chosen is None {
        let rec = s.candidates[s.index];
        assert(record_sibling(rec, target, base));
        let m = choose|m: Seq<char>| is_record_for(m, base) && rec == with_file_name(target, m);
        lemma_record_path(target, m);
        lemma_read_scope_settle(s, promote_start(rec, target, false), target, base);
    }
}

proof fn lemma_read_scope_advance(s: ReadV, r: ReplyV, target: Seq<char>, base: Seq<char>)
    requires
        read_scope(s, target, base),
        file_name_of(target) == Some(base),
    ensures
        read_scope(read_advance(s, r), target, base),
{
    match s.stage {
        ReadStageV::Listing => {
            match r {
                ReplyV::Names(names) => {
                    lemma_record_paths_siblings(names, target, base);
                    lemma_read_scope_proceed(
                        ReadV { candidates: record_paths(names, s.target, s.base), index: 0, ..s },
                        target,
                        base,
                    );
                },
                _ => {},
            }
        },
        ReadStageV::Promoting(p) => {
            lemma_read_scope_settle(s, promote_advance(p, r), target, base);
        },
        ReadStageV::DiscardingTemp => {
            lemma_read_scope_proceed(
                ReadV { index: s.index + 1, stage: ReadStageV::DiscardingTemp, ..s },
                target,
                base,
            );
        },
        _ => {},
    }
}

/// The conditions under which the name `n` of a sibling of `target` is none of
/// the protocol's: not the target's own name, not the name of a staging record
/// for it, and not the name of such a record's temporary file.
pub open spec fn unrecognized(n: Seq<char>, base: Seq<char>) -> bool {
    &&& n != base
    &&& !is_record_for(n, base)
    &&& forall|m: Seq<char>| #[trigger] is_record_for(m, base) ==> n != temp_name_of(m)
}

proof fn lemma_pending_elsewhere(s: ReadV, target: Seq<char>, base: Seq<char>, n: Seq<char>)
    requires
        read_scope(s, target, base),
        file_name_of(target) == Some(base),
        unrecognized(n, base),
    ensures
        read_pending(s) matches NextV::Perform(op) ==> !may_change(op, with_file_name(target, n)),
{
    let q = with_file_name(target, n);
    lemma_file_name(target);
    assert(q != target) by {
        if q == target {
            lemma_sibling_injective(target, n, base);
        }
    }
    if s.stage is Promoting || s.stage is DiscardingRecord || s.stage is DiscardingTemp {
        let rec = s.candidates[s.index];
        assert(record_sibling(rec, target, base));
        let m = choose|m: Seq<char>| is_record_for(m, base) && rec == with_file_name(target, m);
        lemma_record_path(target, m);
        assert(q != rec) by {
            if q == rec {
                lemma_sibling_injective(target, n, m);
            }
        }
        assert(q != temp_path_of(rec)) by {
            if q == temp_path_of(rec) {
                lemma_sibling_injective(target, n, temp_name_of(m));
            }
        }
    }
}

proof fn lemma_read_elsewhere(
    files: Files,
    s: ReadV,
    listing: Seq<Seq<char>>,
    fuel: nat,
    target: Seq<char>,
    base: Seq<char>,
    n: Seq<char>,
)
    requires
        read_scope(s, target, base),
        file_name_of(target) == Some(base),
        unrecognized(n, base),
    ensures
        same_at(run_read(files, s, listing, fuel).0, files, with_file_name(target, n)),
    decreases fuel,
{
    let q = with_file_name(target, n);
    match read_pending(s) {
        NextV::Perform(op) => {
            if fuel > 0 {
                lemma_pending_elsewhere(s, target, base, n);
                let (f, r) = apply(files, op, listing, false);
                lemma_apply_elsewhere(files, op, listing, false, q);
                lemma_read_scope_advance(s, r, target, base);
                lemma_read_elsewhere(f, read_advance(s, r), listing, (fuel - 1) as nat, target, base, n);
            }
        },
        NextV::Finish(_) => {},
    }
}

/// A read never lists as a candidate, changes or removes a file beside the
/// target whose name is not the target's, not a staging record's for the
/// target, and not such a record's temporary file: whatever the directory
/// listing and however long the read runs, that file is as it was.
pub proof fn law_unrecognized_siblings_ignored(
    files: Files,
    target: Seq<char>,
    n: Seq<char>,
    listing: Seq<Seq<char>>,
    fuel: nat,
)
    requires
        file_name_of(target) is Some,
        unrecognized(n, file_name_of(target)->Some_0),
    ensures
        same_at(run_read(files, read_start(target), listing, fuel).0, files, with_file_name(target, n)),
        forall|i: int| 0 <= i < record_paths(listing, target, file_name_of(target)->Some_0).len()
            ==> #[trigger] record_paths(listing, target, file_name_of(target)->Some_0)[i] != with_file_name(target, n),
{
    let base = file_name_of(target)->Some_0;
    let s0 = read_start(target);
    assert(s0.candidates.len() == 0);
    assert(read_scope(s0, target, base));
    lemma_read_elsewhere(files, s0, listing, fuel, target, base, n);
    lemma_record_paths_siblings(listing, target, base);
    let c = record_paths(listing, target, base);
    assert forall|i: int| 0 <= i < c.len() implies #[trigger] c[i] != with_file_name(target, n) by {
        assert(record_sibling(c[i], target, base));
        let m = choose|m: Seq<char>| is_record_for(m, base) && c[i] == with_file_name(target, m);
        if c[i] == with_file_name(target, n) {
            lemma_sibling_injective(target, n, m);
        }
    }
}

/// The outcome that a durable primitive reports for a reply of the model.
pub open spec fn step_of_reply(r: ReplyV) -> StepV {
    match r {
        ReplyV::Failed(code) => StepV::Finish(Err(code)),
        _ => StepV::Finish(Ok(())),
    }
}

/// Whether the paths whose directory a primitive for `op` fsyncs have a parent.
pub open spec fn has_parent_dir(op: OpV) -> bool {
    match op {
        OpV::Create { path, .. } => parent_of(path) is Some,
        OpV::Copy { to, .. } => parent_of(to) is Some,
        OpV::Rename { to, .. } => parent_of(to) is Some,
        OpV::Remove { path } => parent_of(path) is Some,
        _ => false,
    }
}

/// Each mutating request, performed as its durable primitive's plan of system
/// calls, changes the files and reports its outcome exactly as the model's
/// single step for that request does: the model of the sessions' runs is the
/// sequence of system calls that the primitives make.
pub proof fn law_primitives_refine_model(files: Files, op: OpV)
    requires
        has_parent_dir(op),
    ensures
        plan_of(op) is Some,
        run_durable(files, plan_of(op)->Some_0, 4) == (
            apply(files, op, Seq::empty(), false).0,
            step_of_reply(apply(files, op, Seq::empty(), false).1),
        ),
{
    let d0 = plan_of(op)->Some_0;
    match op {
        OpV::Create { path, mode, content } => {
            let f1 = files.insert(path, content);
            let d1 = durable_advance(d0, None);
            let d2 = durable_advance(d1, None);
            assert(run_durable(f1, d2, 2) == (f1, StepV::Finish(Ok(()))));
            assert(run_durable(f1, d1, 3) == run_durable(f1, d2, 2));
        },
        OpV::Copy { from, to } => {
            if files.contains_key(from) {
                let f1 = files.insert(to, files[from]);
                let d1 = durable_advance(d0, None);
                let d2 = durable_advance(d1, None);
                let d3 = durable_advance(d2, None);
                assert(run_durable(f1, d3, 1) == (f1, StepV::Finish(Ok(()))));
                assert(run_durable(f1, d2, 2) == run_durable(f1, d3, 1));
                assert(run_durable(f1, d1, 3) == run_durable(f1, d2, 2));
            } else {
                let code = Some(NOT_FOUND_CODE);
                let d1 = durable_advance(d0, Some(code));
                let (f2, r2) = sys_apply(files, SysOpV::Unlink { path: to });
                assert(f2 =~= files.remove(to));
                let d2 = durable_advance(d1, r2);
                let d3 = durable_advance(d2, None);
                assert(run_durable(f2, d3, 1) == (f2, StepV::Finish(Err(code))));
                assert(run_durable(f2, d2, 2) == run_durable(f2, d3, 1));
                assert(run_durable(files, d1, 3) == run_durable(f2, d2, 2));
            }
        },
        OpV::Rename { from, to } => {
            if files.contains_key(from) {
                let f1 = files.remove(from).insert(to, files[from]);
                let d1 = durable_advance(d0, None);
                let d2 = durable_advance(d1, None);
                let d3 = durable_advance(d2, None);
                assert(run_durable(f1, d3, 1) == (f1, StepV::Finish(Ok(()))));
                assert(run_durable(f1, d2, 2) == run_durable(f1, d3, 1));
                assert(run_durable(f1, d1, 3) == run_durable(f1, d2, 2));
            } else {
                let d1 = durable_advance(d0, Some(Some(NOT_FOUND_CODE)));
                assert(run_durable(files, d1, 3) == (files, StepV::Finish(Err(Some(NOT_FOUND_CODE)))));
            }
        },
        OpV::Remove { path } => {
            if files.contains_key(path) {
                let f1 = files.remove(path);
                let d1 = durable_advance(d0, None);
                let d2 = durable_advance(d1, None);
                assert(run_durable(f1, d2, 2) == (f1, StepV::Finish(Ok(()))));
                assert(run_durable(f1, d1, 3) == run_durable(f1, d2, 2));
            } else {
                let d1 = durable_advance(d0, Some(Some(NOT_FOUND_CODE)));
                assert(run_durable(files, d1, 3) == (files, StepV::Finish(Err(Some(NOT_FOUND_CODE)))));
            }
        },
        _ => {},
    }
}

} // verus!
