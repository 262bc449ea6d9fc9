use fatrw::checksum::{
    extract_checksum_from_path, generate_md5sum_path, md5sum, parse_staging_name, verify_checksum,
};
use fatrw::commit::temp_path;
use fatrw::error::{is_storage_full_error, Error, IoFault, PathError};
use fatrw::mode::{mode_from_string, parse_file_mode};
use fatrw::path::{
    as_absolute, file_name_display, get_file_name, get_parent_as_string, replace_file_name,
};
use fatrw::random::{generate_random_string, nonce_from};

#[test]
fn md5sum_of_known_values() {
    assert_eq!(md5sum(b""), "d41d8cd98f00b204e9800998ecf8427e");
    assert_eq!(md5sum(b"test md5sum content").len(), 32);
    assert_eq!(md5sum(b"abc"), "900150983cd24fb0d6963f7d28e17f72");
}

#[test]
fn staging_path_is_built_and_parsed_back() {
    let fp = md5sum(b"abc");
    let p = generate_md5sum_path("/tmp/dir/test.txt", &fp, "1234abcd").unwrap();
    assert_eq!(p, format!("/tmp/dir/.test.txt.1234abcd.{}.md5sum", fp));
    assert_eq!(extract_checksum_from_path(&p).unwrap(), fp);
    let parts = parse_staging_name(&format!(".test.txt.1234abcd.{}.md5sum", fp)).unwrap();
    assert_eq!(parts.base, "test.txt");
    assert_eq!(parts.nonce, "1234abcd");
    assert_eq!(parts.fingerprint, fp);
    assert_eq!(temp_path(&p), format!("/tmp/dir/.test.txt.1234abcd.{}.tmp", fp));
}

#[test]
fn staging_path_needs_a_file_name() {
    assert!(matches!(
        generate_md5sum_path("/", "0", "1"),
        Err(Error::PathResolution(PathError::NoFileName))
    ));
}

#[test]
fn unrecognized_names_do_not_parse() {
    let fp = md5sum(b"abc");
    assert!(parse_staging_name(&format!(".test.txt.1234abc.{}.md5sum", fp)).is_none());
    assert!(parse_staging_name(&format!(".test.txt.1234ABCD.{}.md5sum", fp)).is_none());
    assert!(parse_staging_name(&format!("test.txt.1234abcd.{}.md5sum", fp)).is_none());
    assert!(parse_staging_name(&format!("..1234abcd.{}.md5sum", fp)).is_none());
    assert!(parse_staging_name(&format!(".test.txt.1234abcd.{}.tmp", fp)).is_none());
    assert!(matches!(
        extract_checksum_from_path("/tmp/test.txt"),
        Err(Error::NotARecord)
    ));
}

#[test]
fn checksum_verification() {
    let fp = md5sum(b"body");
    let path = format!("/d/.f.00000000.{}.md5sum", fp);
    assert_eq!(verify_checksum(&path, b"body".to_vec()).unwrap(), b"body".to_vec());
    match verify_checksum(&path, b"other".to_vec()) {
        Err(Error::ChecksumMismatch { expected, actual }) => {
            assert_eq!(expected, fp);
            assert_eq!(actual, md5sum(b"other"));
        }
        other => panic!("expected a mismatch, got {:?}", other),
    }
    assert!(matches!(
        verify_checksum("/d/f", b"body".to_vec()),
        Err(Error::NotARecord)
    ));
}

#[test]
fn path_components() {
    assert_eq!(get_file_name("/a/b/c.txt").unwrap(), "c.txt");
    assert_eq!(get_parent_as_string("/a/b/c.txt").unwrap(), "/a/b");
    assert_eq!(get_parent_as_string("/c.txt").unwrap(), "/");
    assert!(matches!(get_file_name("/"), Err(PathError::NoFileName)));
    assert!(matches!(get_file_name("/a/.."), Err(PathError::NoFileName)));
    assert!(matches!(get_parent_as_string("/"), Err(PathError::NoParent)));
    assert_eq!(file_name_display("/"), "");
    assert_eq!(file_name_display("/x/y"), "y");
    assert_eq!(replace_file_name("/x/y", "z"), "/x/z");
}

#[test]
fn file_modes() {
    assert_eq!(parse_file_mode("644"), Some(0o644));
    assert_eq!(parse_file_mode("+0755"), Some(0o755));
    assert_eq!(parse_file_mode("37777777777"), Some(u32::MAX));
    assert_eq!(parse_file_mode("40000000000"), None);
    assert_eq!(parse_file_mode("8"), None);
    assert_eq!(parse_file_mode(""), None);
    assert_eq!(parse_file_mode("+"), None);
    assert_eq!(parse_file_mode("-1"), None);
    assert_eq!(mode_from_string(None), Ok(None));
    assert_eq!(mode_from_string(Some("600")), Ok(Some(0o600)));
    assert!(mode_from_string(Some("rw")).is_err());
}

#[test]
fn nonces() {
    assert_eq!(nonce_from(Some([0x12, 0x34, 0xab, 0xcd]), 7), "1234abcd");
    assert_eq!(nonce_from(None, 0x0102_0a0b), "01020a0b");
    let n = generate_random_string(1);
    assert_eq!(n.len(), 8);
    assert!(n.chars().all(|c| c.is_ascii_hexdigit() && !c.is_ascii_uppercase()));
}

#[test]
fn storage_full_classification() {
    let full = IoFault { code: Some(28), message: String::new() };
    assert!(full.is_storage_full());
    assert!(is_storage_full_error(&Error::Io(full)));
    let other = IoFault { code: Some(2), message: String::new() };
    assert!(!is_storage_full_error(&Error::Io(other)));
    assert!(!is_storage_full_error(&Error::NotARecord));
    assert!(!IoFault { code: None, message: String::new() }.is_storage_full());
}

#[test]
fn absolute_paths_are_normalized() {
    assert_eq!(as_absolute("/a/b/../c/./d").unwrap(), "/a/c/d");
    assert_eq!(as_absolute("/x/y").unwrap(), "/x/y");
    let relative = as_absolute("some/file").unwrap();
    assert!(relative.starts_with('/'));
    assert!(relative.ends_with("/some/file"));
}
