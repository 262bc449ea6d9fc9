//! Permission bits written as an octal string.
use vstd::prelude::*;

verus! {

/// An octal digit.
pub open spec fn is_octal_digit(c: char) -> bool {
    '0' <= c && c <= '7'
}

/// The value of a decimal digit character.
pub open spec fn digit_value(c: char) -> int {
    (c as u32) - ('0' as u32)
}

/// The value of a string of octal digits.
pub open spec fn octal_value(d: Seq<char>) -> int
    decreases d.len(),
{
    if d.len() == 0 {
        0
    } else {
        octal_value(d.drop_last()) * 8 + digit_value(d.last())
    }
}

/// The digits of `s`: what follows a leading `+`, if there is one.
pub open spec fn octal_digits(s: Seq<char>) -> Seq<char> {
    if s.len() > 0 && s[0] == '+' {
        s.subrange(1, s.len() as int)
    } else {
        s
    }
}

/// The permission bits that `s` denotes: an optional `+` and one or more octal
/// digits whose value fits in 32 bits.
pub open spec fn parse_octal(s: Seq<char>) -> Option<u32> {
    let d = octal_digits(s);
    if d.len() > 0 && (forall|i: int| 0 <= i < d.len() ==> is_octal_digit(#[trigger] d[i]))
        && octal_value(d) <= u32::MAX {
        Some(octal_value(d) as u32)
    } else {
        None
    }
}

proof fn lemma_octal_prefix(d: Seq<char>, i: int)
    requires
        0 <= i <= d.len(),
        forall|j: int| 0 <= j < d.len() ==> is_octal_digit(#[trigger] d[j]),
    ensures
        0 <= octal_value(d.subrange(0, i)) <= octal_value(d),
    decreases d.len(),
{
    if i == d.len() {
        assert(d.subrange(0, i) =~= d);
        lemma_octal_nonneg(d);
    } else {
        let p = d.drop_last();
        assert forall|j: int| 0 <= j < p.len() implies is_octal_digit(#[trigger] p[j]) by {
            assert(p[j] == d[j]);
        }
        lemma_octal_prefix(p, i);
        assert(p.subrange(0, i) =~= d.subrange(0, i));
        assert(is_octal_digit(d[d.len() - 1]));
    }
}

proof fn lemma_octal_nonneg(d: Seq<char>)
    requires
        forall|j: int| 0 <= j < d.len() ==> is_octal_digit(#[trigger] d[j]),
    ensures
        octal_value(d) >= 0,
    decreases d.len(),
{
    if d.len() > 0 {
        let p = d.drop_last();
        assert forall|j: int| 0 <= j < p.len() implies is_octal_digit(#[trigger] p[j]) by {
            assert(p[j] == d[j]);
        }
        lemma_octal_nonneg(p);
        assert(is_octal_digit(d[d.len() - 1]));
    }
}

/// Parses permission bits written in octal.
pub fn parse_file_mode(octal_str: &str) -> (r: Option<u32>)
    ensures
        r == parse_octal(octal_str@),
{
    let n = octal_str.unicode_len();
    let start: usize = if n > 0 && octal_str.get_char(0) == '+' {
        1
    } else {
        0
    };
    let ghost d = octal_digits(octal_str@);
    assert(d =~= octal_str@.subrange(start as int, n as int));
    if start == n {
        return None;
    }
    let mut i = start;
    while i < n
        invariant
            start <= i <= n == octal_str@.len(),
            d == octal_str@.subrange(start as int, n as int),
            d == octal_digits(octal_str@),
            forall|j: int| 0 <= j < i - start ==> is_octal_digit(#[trigger] d[j]),
        decreases n - i,
    {
        let c = octal_str.get_char(i);
        if !('0' <= c && c <= '7') {
            assert(d[i - start] == c);
            assert(!is_octal_digit(d[i - start]));
            return None;
        }
        i = i + 1;
    }
    let mut value: u64 = 0;
    let mut k = start;
    while k < n
        invariant
            start <= k <= n == octal_str@.len(),
            d == octal_str@.subrange(start as int, n as int),
            d == octal_digits(octal_str@),
            forall|j: int| 0 <= j < d.len() ==> is_octal_digit(#[trigger] d[j]),
            value == octal_value(d.subrange(0, k - start)),
            value <= u32::MAX,
        decreases n - k,
    {
        let c = octal_str.get_char(k);
        let ghost p = d.subrange(0, k - start + 1);
        proof {
            assert(p.drop_last() =~= d.subrange(0, k - start));
            assert(p.last() == c);
            assert(is_octal_digit(d[k - start]));
        }
        value = value * 8 + ((c as u32) - ('0' as u32)) as u64;
        assert(value == octal_value(p));
        if value > 0xffff_ffff {
            proof {
                lemma_octal_prefix(d, k - start + 1);
            }
            return None;
        }
        k = k + 1;
    }
    assert(d.subrange(0, n - start) =~= d);
    Some(value as u32)
}

/// The permission bits of an optional octal string; `Err(())` where the string
/// is not an octal number that fits in 32 bits.
pub fn mode_from_string(mode: Option<&str>) -> (r: Result<Option<u32>, ()>)
    ensures
        match mode {
            None => r == Ok::<Option<u32>, ()>(None),
            Some(s) => match parse_octal(s@) {
                Some(m) => r == Ok::<Option<u32>, ()>(Some(m)),
                None => r is Err,
            },
        },
{
    match mode {
        None => Ok(None),
        Some(s) => match parse_file_mode(s) {
            Some(m) => Ok(Some(m)),
            None => Err(()),
        },
    }
}

} // verus!
