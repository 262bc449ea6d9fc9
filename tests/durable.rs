use fatrw::durable::{safe_copy, safe_create, safe_remove, safe_rename, Durable, Step, SysOp};
use fatrw::error::IoFault;

/// Runs a primitive, failing the call at position `fail_at` (counting from zero),
/// and returns the calls it asked for, as text, with its outcome.
fn trace(mut d: Durable, fail_at: Option<usize>) -> (Vec<String>, Result<(), Option<i32>>) {
    let mut calls = Vec::new();
    loop {
        match d.next() {
            Step::Call(op) => {
                let text = match op {
                    SysOp::Write { path, content, .. } => format!("write {} {}", path, content.len()),
                    SysOp::Copy { from, to } => format!("copy {} {}", from, to),
                    SysOp::Rename { from, to } => format!("rename {} {}", from, to),
                    SysOp::Unlink { path } => format!("unlink {}", path),
                    SysOp::Sync { path } => format!("sync {}", path),
                };
                let failing = fail_at == Some(calls.len());
                calls.push(text);
                d.resume(if failing {
                    Err(IoFault { code: Some(28), message: String::new() })
                } else {
                    Ok(())
                });
            }
            Step::Finish(r) => return (calls, r.map_err(|f| f.code)),
        }
    }
}

#[test]
fn create_fsyncs_file_then_directory() {
    let (calls, r) = trace(safe_create("/d/f", Some(0o600), b"abc".to_vec()), None);
    assert_eq!(calls, vec!["write /d/f 3", "sync /d"]);
    assert_eq!(r, Ok(()));
}

#[test]
fn failed_create_removes_the_file() {
    let (calls, r) = trace(safe_create("/d/f", None, b"abc".to_vec()), Some(0));
    assert_eq!(calls, vec!["write /d/f 3", "unlink /d/f", "sync /d"]);
    assert_eq!(r, Err(Some(28)));
}

#[test]
fn copy_fsyncs_copy_and_directory() {
    let (calls, r) = trace(safe_copy("/d/a", "/d/b"), None);
    assert_eq!(calls, vec!["copy /d/a /d/b", "sync /d/b", "sync /d"]);
    assert_eq!(r, Ok(()));
}

#[test]
fn failed_copy_sync_removes_the_copy() {
    let (calls, r) = trace(safe_copy("/d/a", "/d/b"), Some(1));
    assert_eq!(calls, vec!["copy /d/a /d/b", "sync /d/b", "unlink /d/b", "sync /d"]);
    assert_eq!(r, Err(Some(28)));
}

#[test]
fn rename_and_remove_fsync_the_directory() {
    let (calls, r) = trace(safe_rename("/d/a", "/d/b"), None);
    assert_eq!(calls, vec!["rename /d/a /d/b", "sync /d/b", "sync /d"]);
    assert_eq!(r, Ok(()));
    let (calls, r) = trace(safe_remove("/top"), None);
    assert_eq!(calls, vec!["unlink /top", "sync /"]);
    assert_eq!(r, Ok(()));
    let (calls, r) = trace(safe_rename("/d/a", "/d/b"), Some(0));
    assert_eq!(calls, vec!["rename /d/a /d/b"]);
    assert_eq!(r, Err(Some(28)));
}

#[test]
fn path_without_parent_fails() {
    let (calls, r) = trace(safe_remove("/"), None);
    assert!(calls.is_empty());
    assert_eq!(r, Err(None));
}
