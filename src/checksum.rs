//! Content fingerprints and the reserved naming scheme of staging records.
//!
//! A staging record for a target whose file name is `base` is named
//! `.<base>.<nonce>.<fingerprint>.md5sum`, where the nonce is eight and the
//! fingerprint thirty-two lowercase hexadecimal digits.
use vstd::prelude::*;
use md5::{Digest, Md5};

use crate::error::{Error, PathError};
use crate::fsop::ErrorV;
use crate::path::{file_name_of, get_file_name, replace_file_name, with_file_name};
use crate::text::{has_chars_at, push_char, substring};
use vstd::string::StringExecFns;

verus! {

/// The sixteen bytes of the MD5 digest of some content.
pub uninterp spec fn md5_of(content: Seq<u8>) -> Seq<u8>;

/// Relies on md-5's `Md5::digest`: the MD5 digest of `content`, sixteen bytes
/// that depend on the content alone.
#[verifier::external_body]
fn md5_digest(content: &[u8]) -> (r: Vec<u8>)
    ensures
        r@ == md5_of(content@),
        r@.len() == 16,
{
    Md5::digest(content).to_vec()
}

/// Number of hexadecimal digits in a nonce.
pub const NONCE_LEN: usize = 8;

/// Number of hexadecimal digits in a fingerprint.
pub const FINGERPRINT_LEN: usize = 32;

/// A lowercase hexadecimal digit.
pub open spec fn is_hex_digit(c: char) -> bool {
    ('0' <= c && c <= '9') || ('a' <= c && c <= 'f')
}

/// A string of lowercase hexadecimal digits.
pub open spec fn is_hex(s: Seq<char>) -> bool {
    forall|i: int| 0 <= i < s.len() ==> is_hex_digit(#[trigger] s[i])
}

/// The lowercase hexadecimal digit of a value below sixteen.
pub open spec fn hex_digit(n: u8) -> char {
    match n {
        0 => '0',
        1 => '1',
        2 => '2',
        3 => '3',
        4 => '4',
        5 => '5',
        6 => '6',
        7 => '7',
        8 => '8',
        9 => '9',
        10 => 'a',
        11 => 'b',
        12 => 'c',
        13 => 'd',
        14 => 'e',
        _ => 'f',
    }
}

/// Two lowercase hexadecimal digits per byte, high nibble first.
pub open spec fn hex_of(b: Seq<u8>) -> Seq<char>
    decreases b.len(),
{
    if b.len() == 0 {
        Seq::empty()
    } else {
        let last = b.last();
        hex_of(b.drop_last()).push(hex_digit(last / 16)).push(hex_digit(last % 16))
    }
}

/// The sixteen bytes of the digest of `content`.
pub open spec fn digest_of(content: Seq<u8>) -> Seq<u8> {
    Seq::new(16, |i: int| md5_of(content)[i])
}

/// The fingerprint of some content: its MD5 digest in hexadecimal.
pub open spec fn fingerprint_of(content: Seq<u8>) -> Seq<char> {
    hex_of(digest_of(content))
}

/// A fingerprint is thirty-two lowercase hexadecimal digits.
pub proof fn lemma_fingerprint(content: Seq<u8>)
    ensures
        fingerprint_of(content).len() == FINGERPRINT_LEN,
        is_hex(fingerprint_of(content)),
{
    lemma_hex_of(digest_of(content));
}

/// The hexadecimal form of some bytes has two digits per byte.
pub proof fn lemma_hex_of(b: Seq<u8>)
    ensures
        hex_of(b).len() == 2 * b.len(),
        is_hex(hex_of(b)),
    decreases b.len(),
{
    if b.len() > 0 {
        lemma_hex_of(b.drop_last());
        let h = hex_of(b.drop_last());
        let last = b.last();
        assert(is_hex_digit(hex_digit(last / 16)));
        assert(is_hex_digit(hex_digit(last % 16)));
        assert forall|i: int| 0 <= i < hex_of(b).len() implies is_hex_digit(#[trigger] hex_of(b)[i]) by {
            if i < h.len() {
                assert(hex_of(b)[i] == h[i]);
            }
        }
    }
}

fn hex_digit_char(n: u8) -> (c: char)
    requires
        n < 16,
    ensures
        c == hex_digit(n),
{
    match n {
        0 => '0',
        1 => '1',
        2 => '2',
        3 => '3',
        4 => '4',
        5 => '5',
        6 => '6',
        7 => '7',
        8 => '8',
        9 => '9',
        10 => 'a',
        11 => 'b',
        12 => 'c',
        13 => 'd',
        14 => 'e',
        _ => 'f',
    }
}

/// Appends the hexadecimal digits of `bytes` to `s`.
pub fn push_hex(s: &mut String, bytes: &[u8])
    ensures
        final(s)@ == old(s)@ + hex_of(bytes@),
{
    let mut i: usize = 0;
    while i < bytes.len()
        invariant
            0 <= i <= bytes@.len(),
            s@ == old(s)@ + hex_of(bytes@.subrange(0, i as int)),
        decreases bytes@.len() - i,
    {
        let b = bytes[i];
        push_char(s, hex_digit_char(b / 16));
        push_char(s, hex_digit_char(b % 16));
        proof {
            let next = bytes@.subrange(0, i + 1);
            assert(next.drop_last() =~= bytes@.subrange(0, i as int));
            assert(next.last() == b);
        }
        i = i + 1;
    }
    assert(bytes@.subrange(0, bytes@.len() as int) =~= bytes@);
}

/// The fingerprint of `content`: the lowercase hexadecimal MD5 digest.
pub fn md5sum(content: &[u8]) -> (r: String)
    ensures
        r@ == fingerprint_of(content@),
        r@.len() == FINGERPRINT_LEN,
        is_hex(r@),
{
    let digest = md5_digest(content);
    let mut s = String::new();
    push_hex(&mut s, digest.as_slice());
    proof {
        assert(s@ =~= hex_of(digest@));
        assert(digest@ =~= digest_of(content@));
        lemma_hex_of(digest@);
    }
    s
}

/// The fixed ending of a staging record's name.
pub open spec fn record_suffix() -> Seq<char> {
    seq!['.', 'm', 'd', '5', 's', 'u', 'm']
}

/// The ending that replaces `record_suffix` in the name of a temporary commit file.
pub open spec fn temp_suffix() -> Seq<char> {
    seq!['.', 't', 'm', 'p']
}

/// `.<base>.<nonce>.<fingerprint>.md5sum`
pub open spec fn staging_name(base: Seq<char>, nonce: Seq<char>, fp: Seq<char>) -> Seq<char> {
    seq!['.'] + base + seq!['.'] + nonce + seq!['.'] + fp + record_suffix()
}

/// The parts of a name that follows the reserved scheme: a non-empty base, a
/// nonce of `NONCE_LEN` and a fingerprint of `FINGERPRINT_LEN` hexadecimal digits.
pub open spec fn valid_parts(base: Seq<char>, nonce: Seq<char>, fp: Seq<char>) -> bool {
    &&& base.len() > 0
    &&& nonce.len() == NONCE_LEN
    &&& is_hex(nonce)
    &&& fp.len() == FINGERPRINT_LEN
    &&& is_hex(fp)
}

/// Reads a file name against the reserved scheme: `Some((base, nonce, fingerprint))`
/// if it is the name of a staging record, `None` otherwise.
pub open spec fn parse_record(name: Seq<char>) -> Option<(Seq<char>, Seq<char>, Seq<char>)> {
    let l = name.len();
    if l >= 51 && name[0] == '.' && name[l - 49] == '.' && name[l - 40] == '.'
        && name.subrange(l - 7, l as int) == record_suffix()
        && is_hex(name.subrange(l - 48, l - 40))
        && is_hex(name.subrange(l - 39, l - 7)) {
        Some((name.subrange(1, l - 49), name.subrange(l - 48, l - 40), name.subrange(l - 39, l - 7)))
    } else {
        None
    }
}

/// Whether `name` is the name of a staging record for a target named `base`.
pub open spec fn is_record_for(name: Seq<char>, base: Seq<char>) -> bool {
    parse_record(name) matches Some(p) && p.0 == base
}

/// Reading back a name built from valid parts gives those parts.
pub proof fn lemma_parse_staging_name(base: Seq<char>, nonce: Seq<char>, fp: Seq<char>)
    requires
        valid_parts(base, nonce, fp),
    ensures
        parse_record(staging_name(base, nonce, fp)) == Some((base, nonce, fp)),
{
    let name = staging_name(base, nonce, fp);
    let l = name.len();
    let b = base.len();
    assert(l == b + 50);
    assert(name.subrange(1, l - 49) =~= base);
    assert(name.subrange(l - 48, l - 40) =~= nonce);
    assert(name.subrange(l - 39, l - 7) =~= fp);
    assert(name.subrange(l - 7, l as int) =~= record_suffix());
    assert(name[l - 49] == '.');
    assert(name[l - 40] == '.');
}

/// The parts of a staging record's name.
pub struct StagingName {
    pub base: String,
    pub nonce: String,
    pub fingerprint: String,
}

/// Whether the characters of `s` from `from` up to `to` are hexadecimal digits.
fn all_hex(s: &str, from: usize, to: usize) -> (r: bool)
    requires
        from <= to <= s@.len(),
    ensures
        r == is_hex(s@.subrange(from as int, to as int)),
{
    let mut i = from;
    while i < to
        invariant
            from <= i <= to <= s@.len(),
            forall|j: int| from <= j < i ==> is_hex_digit(#[trigger] s@[j]),
        decreases to - i,
    {
        let c = s.get_char(i);
        if !(('0' <= c && c <= '9') || ('a' <= c && c <= 'f')) {
            assert(s@.subrange(from as int, to as int)[i - from] == c);
            return false;
        }
        i = i + 1;
    }
    assert forall|j: int| 0 <= j < to - from implies is_hex_digit(
        #[trigger] s@.subrange(from as int, to as int)[j],
    ) by {
        assert(s@.subrange(from as int, to as int)[j] == s@[from + j]);
    }
    true
}

/// Reads a file name against the reserved scheme of staging records.
pub fn parse_staging_name(name: &str) -> (r: Option<StagingName>)
    ensures
        match r {
            Some(p) => parse_record(name@) == Some((p.base@, p.nonce@, p.fingerprint@)),
            None => parse_record(name@) is None,
        },
{
    let l = name.unicode_len();
    if l < 51 {
        return None;
    }
    proof {
        reveal_strlit(".md5sum");
        assert(".md5sum"@ =~= record_suffix());
    }
    if name.get_char(0) != '.' || name.get_char(l - 49) != '.' || name.get_char(l - 40) != '.'
        || !has_chars_at(name, l - 7, ".md5sum") || !all_hex(name, l - 48, l - 40) || !all_hex(
        name,
        l - 39,
        l - 7,
    ) {
        return None;
    }
    assert(name@.subrange(l - 7, l as int) == record_suffix());
    Some(
        StagingName {
            base: substring(name, 1, l - 49),
            nonce: substring(name, l - 48, l - 40),
            fingerprint: substring(name, l - 39, l - 7),
        },
    )
}

/// Builds the name `.<base>.<nonce>.<fingerprint>.md5sum`.
pub fn staging_file_name(base: &str, nonce: &str, fingerprint: &str) -> (r: String)
    ensures
        r@ == staging_name(base@, nonce@, fingerprint@),
{
    let mut s = String::new();
    push_char(&mut s, '.');
    s.append(base);
    push_char(&mut s, '.');
    s.append(nonce);
    push_char(&mut s, '.');
    s.append(fingerprint);
    proof {
        reveal_strlit(".md5sum");
    }
    s.append(".md5sum");
    assert(s@ =~= staging_name(base@, nonce@, fingerprint@));
    s
}

/// The fingerprint that the name of the staging record at `path` carries.
pub fn extract_checksum_from_path(path: &str) -> (r: Result<String, Error>)
    ensures
        match r {
            Ok(fp) => file_name_of(path@) matches Some(n) && parse_record(n) matches Some(p) && fp@
                == p.2,
            Err(e) => !(file_name_of(path@) matches Some(n) && parse_record(n) is Some) && e@
                == ErrorV::NotARecord,
        },
{
    match get_file_name(path) {
        Ok(name) => match parse_staging_name(name.as_str()) {
            Some(p) => Ok(p.fingerprint),
            None => Err(Error::NotARecord),
        },
        Err(_) => Err(Error::NotARecord),
    }
}

/// Checks the body `content` of the staging record at `path` against the
/// fingerprint in its name, and hands the body back where they match.
pub fn verify_checksum(path: &str, content: Vec<u8>) -> (r: Result<Vec<u8>, Error>)
    ensures
        match r {
            Ok(c) => file_name_of(path@) matches Some(n) && parse_record(n) matches Some(p)
                && fingerprint_of(content@) == p.2 && c@ == content@,
            Err(e) => match e@ {
                ErrorV::NotARecord => !(file_name_of(path@) matches Some(n) && parse_record(n) is Some),
                ErrorV::ChecksumMismatch(expected, actual) => file_name_of(path@) matches Some(n)
                    && parse_record(n) matches Some(p) && expected == p.2 && actual == fingerprint_of(
                    content@,
                ) && expected != actual,
                _ => false,
            },
        },
{
    let expected = extract_checksum_from_path(path)?;
    let actual = md5sum(content.as_slice());
    if actual == expected {
        Ok(content)
    } else {
        Err(Error::ChecksumMismatch { expected, actual })
    }
}

/// The path of a staging record beside `path` for content with fingerprint
/// `checksum`, under `nonce`.
pub fn generate_md5sum_path(path: &str, checksum: &str, nonce: &str) -> (r: Result<String, Error>)
    ensures
        match r {
            Ok(p) => file_name_of(path@) matches Some(base) && p@ == with_file_name(
                path@,
                staging_name(base, nonce@, checksum@),
            ),
            Err(e) => file_name_of(path@) is None && e@ == ErrorV::PathResolution(
                PathError::NoFileName,
            ),
        },
{
    match get_file_name(path) {
        Ok(base) => {
            let name = staging_file_name(base.as_str(), nonce, checksum);
            Ok(replace_file_name(path, name.as_str()))
        },
        Err(e) => Err(Error::PathResolution(e)),
    }
}

} // verus!
