//! Nonces that keep the names of concurrent or retried staging records apart.
use vstd::prelude::*;

use crate::checksum::{hex_of, is_hex, lemma_hex_of, push_hex, NONCE_LEN};

verus! {

/// Relies on getrandom's `getrandom`: four bytes from the system's entropy
/// source, or `None` where it reports a failure.
#[verifier::external_body]
fn random_bytes() -> (r: Option<[u8; 4]>)
{
    let mut buf = [0_u8; 4];
    getrandom::getrandom(&mut buf).ok().map(|_| buf)
}

/// The four bytes of `n`, most significant first.
pub open spec fn be_bytes(n: u32) -> Seq<u8> {
    seq![(n / 0x1000000) as u8, ((n / 0x10000) % 0x100) as u8, ((n / 0x100) % 0x100) as u8, (n % 0x100) as u8]
}

/// The four bytes of `n`, most significant first.
pub fn to_be_bytes(n: u32) -> (r: [u8; 4])
    ensures
        r@ == be_bytes(n),
{
    let r = [(n / 0x1000000) as u8, ((n / 0x10000) % 0x100) as u8, ((n / 0x100) % 0x100) as u8, (n % 0x100) as u8];
    assert(r@ =~= be_bytes(n));
    r
}

/// The nonce made of `random` where there are random bytes, and of the
/// process identity `pid` where there are none.
pub fn nonce_from(random: Option<[u8; 4]>, pid: u32) -> (r: String)
    ensures
        r@ == hex_of(
            match random {
                Some(b) => b@,
                None => be_bytes(pid),
            },
        ),
        r@.len() == NONCE_LEN,
        is_hex(r@),
{
    let buf = match random {
        Some(b) => b,
        None => to_be_bytes(pid),
    };
    let mut s = String::new();
    push_hex(&mut s, buf.as_slice());
    proof {
        assert(s@ =~= hex_of(buf@));
        lemma_hex_of(buf@);
    }
    s
}

/// A fresh nonce: eight lowercase hexadecimal digits, from the entropy source
/// where it answers and from the process identity `pid` where it does not.
pub fn generate_random_string(pid: u32) -> (r: String)
    ensures
        r@.len() == NONCE_LEN,
        is_hex(r@),
{
    nonce_from(random_bytes(), pid)
}

} // verus!
