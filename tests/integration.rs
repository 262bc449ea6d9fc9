use md5::{Digest, Md5};

use std::collections::BTreeMap;

use fatrw::error::{Error, IoFault};
use fatrw::fsop::{FsOp, FsReply, Next};
use fatrw::path::{get_file_name, get_parent_as_string};
use fatrw::read::read_file;
use fatrw::write::write_file;

const NO_SPACE: i32 = 28;
const NOT_FOUND: i32 = 2;
const PID: u32 = 4242;

/// A directory tree held in memory: file paths and their contents.
#[derive(Default)]
struct MemFs {
    files: BTreeMap<String, Vec<u8>>,
    log: Vec<String>,
}

fn missing() -> FsReply {
    FsReply::Failed(IoFault { code: Some(NOT_FOUND), message: "No such file or directory".to_string() })
}

impl MemFs {
    fn perform(&mut self, op: FsOp) -> FsReply {
        match op {
            FsOp::CreateFile { path, content, .. } => {
                self.log.push(format!("create {}", path));
                self.files.insert(path, content);
                FsReply::Done
            }
            FsOp::CopyFile { from, to } => {
                self.log.push(format!("copy {} {}", from, to));
                match self.files.get(&from).cloned() {
                    Some(c) => {
                        self.files.insert(to, c);
                        FsReply::Done
                    }
                    None => missing(),
                }
            }
            FsOp::RenameFile { from, to } => {
                self.log.push(format!("rename {} {}", from, to));
                match self.files.remove(&from) {
                    Some(c) => {
                        self.files.insert(to, c);
                        FsReply::Done
                    }
                    None => missing(),
                }
            }
            FsOp::RemoveFile { path } => {
                self.log.push(format!("remove {}", path));
                match self.files.remove(&path) {
                    Some(_) => FsReply::Done,
                    None => missing(),
                }
            }
            FsOp::ReadFile { path } => match self.files.get(&path) {
                Some(c) => FsReply::Bytes(c.clone()),
                None => missing(),
            },
            FsOp::ListDir { dir } => FsReply::Names(
                self.files
                    .keys()
                    .filter(|p| get_parent_as_string(p).map(|d| d == dir).unwrap_or(false))
                    .filter_map(|p| get_file_name(p).ok())
                    .collect(),
            ),
        }
    }

    fn has_file(&self, path: &str) -> bool {
        self.files.contains_key(path)
    }

    fn read(&self, path: &str) -> Result<Vec<u8>, ()> {
        self.files.get(path).cloned().ok_or(())
    }

    fn names(&self) -> Vec<String> {
        self.files.keys().cloned().collect()
    }
}

fn run_read(fs: &mut MemFs, path: &str) -> Result<Vec<u8>, Error> {
    let mut session = read_file(path)?;
    loop {
        match session.next() {
            Next::Perform(op) => session.resume(fs.perform(op)),
            Next::Finish(r) => return r,
        }
    }
}

/// Runs a write, answering requests with `answer`, which may inject failures.
fn run_write_with(
    fs: &mut MemFs,
    path: &str,
    content: &[u8],
    unsafe_fallback: bool,
    answer: &mut dyn FnMut(&mut MemFs, FsOp) -> FsReply,
) -> Result<(), Error> {
    let mut session = write_file(path, content.to_vec(), None, unsafe_fallback, PID)?;
    loop {
        match session.next() {
            Next::Perform(op) => session.resume(answer(fs, op)),
            Next::Finish(r) => return r,
        }
    }
}

fn run_write(fs: &mut MemFs, path: &str, content: &[u8]) -> Result<(), Error> {
    run_write_with(fs, path, content, false, &mut |fs, op| fs.perform(op))
}

fn create_file(fs: &mut MemFs, path: &str, content: &[u8]) {
    fs.files.insert(path.to_string(), content.to_vec());
}

pub fn md5sum(content: &[u8]) -> String {
    format!("{:x}", Md5::digest(content))
}

fn no_space() -> FsReply {
    FsReply::Failed(IoFault { code: Some(NO_SPACE), message: "No space left on device".to_string() })
}

const TEMP: &str = "/work";

fn join(dir: &str, name: &str) -> String {
    format!("{}/{}", dir, name)
}

#[test]
fn integration_read_target_only() {
    let mut fs = MemFs::default();

    let test_content = "test content".as_bytes();

    let target = join(TEMP, "test.txt");
    create_file(&mut fs, &target, test_content);

    let content = run_read(&mut fs, &target).unwrap();

    assert_eq!(test_content, content);
}

#[test]
fn read_md5sum() {
    let mut fs = MemFs::default();

    let test_md5sum_content = "test md5sum content".as_bytes();
    let test_target_content = "test target content".as_bytes();

    let target = join(TEMP, "test.txt");
    create_file(&mut fs, &target, test_target_content);

    let checksum = md5sum(test_md5sum_content);

    let md5sum_name = format!(".test.txt.1234abcd.{}.md5sum", checksum);
    let md5sum_path = join(TEMP, &md5sum_name);
    create_file(&mut fs, &md5sum_path, test_md5sum_content);

    let tmp_name = format!(".test.txt.1234abcd.{}.tmp", checksum);
    let tmp_path = join(TEMP, &tmp_name);
    create_file(&mut fs, &tmp_path, test_md5sum_content);

    let content = run_read(&mut fs, &target).unwrap();

    let committed_content = fs.read(&target).unwrap();

    assert_eq!(test_md5sum_content, content);
    assert_eq!(committed_content, content);
    assert!(!fs.has_file(&md5sum_path));
    assert!(!fs.has_file(&tmp_path));
}

#[test]
fn read_target_and_md5sum() {
    let mut fs = MemFs::default();

    let test_md5sum_content = "test md5sum content";
    let test_target_content = "test target content";

    let target = join(TEMP, "test.txt");
    create_file(&mut fs, &target, test_target_content.as_bytes());

    let checksum = md5sum(test_md5sum_content.as_bytes());

    let md5sum_name = format!(".test.txt.1234abcd.{}.md5sum", checksum);
    let md5sum_path = join(TEMP, &md5sum_name);
    create_file(&mut fs, &md5sum_path, test_md5sum_content.as_bytes());

    let tmp_name = format!(".test.txt.1234abcd.{}.tmp", checksum);
    let tmp_path = join(TEMP, &tmp_name);
    create_file(&mut fs, &tmp_path, test_md5sum_content.as_bytes());

    let content = run_read(&mut fs, &target).unwrap();

    assert_eq!(test_md5sum_content.as_bytes(), content.as_slice());
    assert_eq!(fs.has_file(&md5sum_path), false);
    assert_eq!(fs.has_file(&tmp_path), false);
}

#[test]
fn read_multiple_md5sums() {
    let mut fs = MemFs::default();

    let test_content = "test md5sum content".as_bytes();

    let checksum = md5sum(test_content);

    let md5sum_name_1 = format!(".test.txt.11111111.{}.md5sum", checksum);
    let md5sum_path_1 = join(TEMP, &md5sum_name_1);
    create_file(&mut fs, &md5sum_path_1, test_content);

    let md5sum_name_2 = format!(".test.txt.22222222.{}.md5sum", checksum);
    let md5sum_path_2 = join(TEMP, &md5sum_name_2);
    create_file(&mut fs, &md5sum_path_2, test_content);

    let target = join(TEMP, "test.txt");
    let content = run_read(&mut fs, &target).unwrap();

    let committed_content = fs.read(&target).unwrap();

    assert_eq!(test_content, content);
    assert_eq!(committed_content, content);
    assert!(!fs.has_file(&md5sum_path_1));
    assert!(!fs.has_file(&md5sum_path_2));
}

#[test]
fn write_then_read_round_trip() {
    let mut fs = MemFs::default();
    let target = join(TEMP, "data.bin");

    let content: Vec<u8> = vec![0, 1, 2, 255, 10, 13];
    run_write(&mut fs, &target, &content).unwrap();

    assert_eq!(run_read(&mut fs, &target).unwrap(), content);
    assert_eq!(fs.read(&target).unwrap(), content);
    assert_eq!(fs.names(), vec![target.clone()]);
}

#[test]
fn write_follows_the_staged_protocol() {
    let mut fs = MemFs::default();
    let target = join(TEMP, "data.txt");
    create_file(&mut fs, &target, b"a much longer previous content");

    run_write(&mut fs, &target, b"short").unwrap();

    let record_name = fs.log[0].trim_start_matches("create ").to_string();
    assert!(record_name.starts_with(&format!("{}/.data.txt.", TEMP)));
    assert!(record_name.ends_with(&format!(".{}.md5sum", md5sum(b"short"))));
    let temp_name = format!("{}.tmp", record_name.trim_end_matches(".md5sum"));
    assert_eq!(
        fs.log,
        vec![
            format!("create {}", record_name),
            format!("copy {} {}", record_name, temp_name),
            format!("rename {} {}", temp_name, target),
            format!("remove {}", record_name),
        ]
    );
    assert_eq!(record_name.len(), TEMP.len() + "/.data.txt.".len() + 8 + 1 + 32 + ".md5sum".len());
    assert_eq!(run_read(&mut fs, &target).unwrap(), b"short".to_vec());
    assert_eq!(fs.names(), vec![target.clone()]);
}

#[test]
fn write_empty_content() {
    let mut fs = MemFs::default();
    let target = join(TEMP, "empty");

    run_write(&mut fs, &target, b"").unwrap();

    assert_eq!(run_read(&mut fs, &target).unwrap(), Vec::<u8>::new());
}

#[test]
fn write_to_root_has_no_file_name() {
    let mut fs = MemFs::default();
    assert!(matches!(
        run_write(&mut fs, "/", b"x"),
        Err(Error::PathResolution(_))
    ));
    assert!(fs.log.is_empty());
}

#[test]
fn tampered_record_is_discarded() {
    let mut fs = MemFs::default();

    let target = join(TEMP, "test.txt");
    create_file(&mut fs, &target, b"existing content");

    let checksum = md5sum(b"staged body");
    let record = join(TEMP, &format!(".test.txt.1234abcd.{}.md5sum", checksum));
    create_file(&mut fs, &record, b"altered body");

    assert_eq!(run_read(&mut fs, &target).unwrap(), b"existing content".to_vec());
    assert!(!fs.has_file(&record));
    assert_eq!(fs.read(&target).unwrap(), b"existing content".to_vec());
}

#[test]
fn tampered_record_without_target_is_not_found() {
    let mut fs = MemFs::default();

    let target = join(TEMP, "test.txt");
    let checksum = md5sum(b"staged body");
    let record = join(TEMP, &format!(".test.txt.1234abcd.{}.md5sum", checksum));
    create_file(&mut fs, &record, b"altered body");

    match run_read(&mut fs, &target) {
        Err(Error::Io(f)) => assert_eq!(f.code, Some(NOT_FOUND)),
        other => panic!("expected a not-found error, got {:?}", other),
    }
    assert!(!fs.has_file(&record));
}

#[test]
fn missing_target_is_not_found() {
    let mut fs = MemFs::default();
    let target = join(TEMP, "absent");

    match run_read(&mut fs, &target) {
        Err(Error::Io(f)) => assert_eq!(f.code, Some(NOT_FOUND)),
        other => panic!("expected a not-found error, got {:?}", other),
    }
}

#[test]
fn unrecognized_siblings_are_untouched() {
    let mut fs = MemFs::default();

    let target = join(TEMP, "test.txt");
    create_file(&mut fs, &target, b"target");

    let checksum = md5sum(b"other");
    let names = vec![
        format!(".test.txt.zz.{}.md5sum", checksum),
        format!(".test.txt.1234abcd.{}.md5sums", checksum),
        ".test.txt.1234abcd.0123.md5sum".to_string(),
        format!(".test.txt.x.1234abcd.{}.md5sum", checksum),
        format!(".other.txt.1234abcd.{}.md5sum", checksum),
        format!(".test.txt.1234abcd.{}.tmp", checksum),
        "notes.txt".to_string(),
    ];
    for name in &names {
        create_file(&mut fs, &join(TEMP, name), b"other");
    }

    assert_eq!(run_read(&mut fs, &target).unwrap(), b"target".to_vec());
    for name in &names {
        assert_eq!(fs.read(&join(TEMP, name)).unwrap(), b"other".to_vec());
    }
    assert!(fs.log.is_empty());
}

#[test]
fn storage_full_copy_falls_back_to_rename() {
    let mut fs = MemFs::default();
    let target = join(TEMP, "test.txt");
    create_file(&mut fs, &target, b"old");

    let mut answer = |fs: &mut MemFs, op: FsOp| match op {
        FsOp::CopyFile { .. } => no_space(),
        other => fs.perform(other),
    };
    run_write_with(&mut fs, &target, b"new content", true, &mut answer).unwrap();

    assert_eq!(fs.log.len(), 2);
    assert!(fs.log[1].starts_with("rename "));
    assert!(fs.log[1].ends_with(&format!(".md5sum {}", target)));
    assert_eq!(fs.read(&target).unwrap(), b"new content".to_vec());
    assert_eq!(fs.names(), vec![target.clone()]);
}

#[test]
fn storage_full_copy_without_fallback_fails() {
    let mut fs = MemFs::default();
    let target = join(TEMP, "test.txt");
    create_file(&mut fs, &target, b"old");

    let mut answer = |fs: &mut MemFs, op: FsOp| match op {
        FsOp::CopyFile { .. } => no_space(),
        other => fs.perform(other),
    };
    match run_write_with(&mut fs, &target, b"new content", false, &mut answer) {
        Err(Error::Commit { cause, .. }) => assert_eq!(cause.code, Some(NO_SPACE)),
        other => panic!("expected a commit failure, got {:?}", other),
    }
    assert_eq!(fs.read(&target).unwrap(), b"old".to_vec());
}

#[test]
fn storage_full_staging_falls_back_to_direct_write() {
    let mut fs = MemFs::default();
    let target = join(TEMP, "test.txt");

    let mut answer = |fs: &mut MemFs, op: FsOp| match op {
        FsOp::CreateFile { ref path, .. } if path.ends_with(".md5sum") => no_space(),
        other => fs.perform(other),
    };
    run_write_with(&mut fs, &target, b"direct", true, &mut answer).unwrap();

    assert_eq!(fs.read(&target).unwrap(), b"direct".to_vec());
    assert_eq!(fs.names(), vec![target.clone()]);
}

#[test]
fn storage_full_staging_without_fallback_fails() {
    let mut fs = MemFs::default();
    let target = join(TEMP, "test.txt");

    let mut answer = |fs: &mut MemFs, op: FsOp| match op {
        FsOp::CreateFile { .. } => no_space(),
        other => fs.perform(other),
    };
    match run_write_with(&mut fs, &target, b"direct", false, &mut answer) {
        Err(Error::Io(f)) => assert_eq!(f.code, Some(NO_SPACE)),
        other => panic!("expected an I/O failure, got {:?}", other),
    }
    assert!(!fs.has_file(&target));
}

#[test]
fn promote_twice_is_idempotent() {
    let mut fs = MemFs::default();
    let target = join(TEMP, "test.txt");
    let checksum = md5sum(b"payload");
    let record = join(TEMP, &format!(".test.txt.1234abcd.{}.md5sum", checksum));
    create_file(&mut fs, &record, b"payload");
    // a crash after the rename leaves the record in place beside the new target
    create_file(&mut fs, &target, b"payload");

    assert_eq!(run_read(&mut fs, &target).unwrap(), b"payload".to_vec());
    assert_eq!(fs.read(&target).unwrap(), b"payload".to_vec());
    assert_eq!(fs.names(), vec![target.clone()]);
}

#[test]
fn reply_of_the_wrong_kind_fails_the_write() {
    let mut fs = MemFs::default();
    let target = join(TEMP, "test.txt");
    let mut answer = |_: &mut MemFs, _: FsOp| FsReply::Bytes(Vec::new());
    assert!(matches!(
        run_write_with(&mut fs, &target, b"x", false, &mut answer),
        Err(Error::UnexpectedReply)
    ));
}

#[test]
fn failed_listing_falls_back_to_a_plain_read() {
    let mut fs = MemFs::default();
    let target = join(TEMP, "test.txt");
    create_file(&mut fs, &target, b"plain");
    let checksum = md5sum(b"staged");
    let record = join(TEMP, &format!(".test.txt.1234abcd.{}.md5sum", checksum));
    create_file(&mut fs, &record, b"staged");

    let mut session = read_file(&target).unwrap();
    let result = loop {
        match session.next() {
            Next::Perform(FsOp::ListDir { .. }) => session.resume(missing()),
            Next::Perform(op) => session.resume(fs.perform(op)),
            Next::Finish(r) => break r,
        }
    };
    assert_eq!(result.unwrap(), b"plain".to_vec());
    assert!(fs.has_file(&record));
}

#[test]
fn promoting_a_path_that_is_not_a_record_fails_at_once() {
    let promote = fatrw::commit::commit_md5sum_file("/work/notes.txt", "/work/test.txt", false);
    assert!(matches!(promote.next(), Next::Finish(Err(Error::NotARecord))));
}
