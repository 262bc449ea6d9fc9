//! Paths as text: the final component, the parent, and siblings.
//!
//! Paths here are in the normalized form that `as_absolute` returns: no `.` or
//! `..` components and no trailing separator.
use vstd::prelude::*;
use path_absolutize::Absolutize;

use crate::error::PathError;
use crate::text::{push_char, substring};
use vstd::string::StringExecFns;

verus! {

/// The position of the last `/` in `p`, or -1 if there is none.
pub open spec fn last_slash(p: Seq<char>) -> int
    decreases p.len(),
{
    if p.len() == 0 {
        -1
    } else if p.last() == '/' {
        p.len() - 1
    } else {
        last_slash(p.drop_last())
    }
}

/// The position of the last separator is within bounds, holds a separator,
/// and none follows it.
pub proof fn lemma_last_slash(p: Seq<char>)
    ensures
        -1 <= last_slash(p) < p.len(),
        last_slash(p) >= 0 ==> p[last_slash(p)] == '/',
        forall|i: int| last_slash(p) < i < p.len() ==> p[i] != '/',
    decreases p.len(),
{
    if p.len() > 0 && p.last() != '/' {
        lemma_last_slash(p.drop_last());
        assert forall|i: int| last_slash(p) < i < p.len() implies p[i] != '/' by {
            if i < p.len() - 1 {
                assert(p[i] == p.drop_last()[i]);
            }
        }
    }
}

/// What follows the last separator, up to the end.
pub open spec fn tail_of(p: Seq<char>) -> Seq<char> {
    p.subrange(last_slash(p) + 1, p.len() as int)
}

/// The final component of `p`, if it names a file.
pub open spec fn file_name_of(p: Seq<char>) -> Option<Seq<char>> {
    let t = tail_of(p);
    if t.len() == 0 || t == seq!['.'] || t == seq!['.', '.'] {
        None
    } else {
        Some(t)
    }
}

/// The parent of `p`: what precedes the last separator (the root for a
/// top-level entry), and nothing for the root itself.
pub open spec fn parent_of(p: Seq<char>) -> Option<Seq<char>> {
    let k = last_slash(p);
    if p.len() == 0 || (k == 0 && p.len() == 1) {
        None
    } else if k < 0 {
        Some(Seq::empty())
    } else if k == 0 {
        Some(seq!['/'])
    } else {
        Some(p.subrange(0, k))
    }
}

/// `p` with its final component replaced by `name`.
pub open spec fn with_file_name(p: Seq<char>, name: Seq<char>) -> Seq<char> {
    p.subrange(0, last_slash(p) + 1) + name
}

fn find_last_slash(p: &str) -> (r: Option<usize>)
    ensures
        match r {
            Some(k) => k == last_slash(p@),
            None => last_slash(p@) == -1,
        },
{
    let n = p.unicode_len();
    let mut i = n;
    assert(p@.subrange(0, n as int) =~= p@);
    while i > 0
        invariant
            i <= n == p@.len(),
            last_slash(p@) == last_slash(p@.subrange(0, i as int)),
        decreases i,
    {
        let ghost q = p@.subrange(0, i as int);
        if p.get_char(i - 1) == '/' {
            return Some(i - 1);
        }
        assert(q.drop_last() =~= p@.subrange(0, i - 1));
        i = i - 1;
    }
    assert(p@.subrange(0, 0) =~= Seq::<char>::empty());
    None
}

fn tail_start(p: &str) -> (r: usize)
    ensures
        r == last_slash(p@) + 1,
        r <= p@.len(),
{
    proof {
        lemma_last_slash(p@);
    }
    let n = p.unicode_len();
    match find_last_slash(p) {
        Some(k) => {
            assert(k < p@.len());
            k + 1
        },
        None => 0,
    }
}

/// The final component of `path`.
pub fn get_file_name(path: &str) -> (r: Result<String, PathError>)
    ensures
        match r {
            Ok(name) => file_name_of(path@) == Some(name@),
            Err(e) => file_name_of(path@) is None && e == PathError::NoFileName,
        },
{
    let start = tail_start(path);
    let n = path.unicode_len();
    let t = substring(path, start, n);
    proof {
        reveal_strlit(".");
        reveal_strlit("..");
        assert(".."@ =~= seq!['.', '.']);
        assert("."@ =~= seq!['.']);
    }
    if n == start || (n - start == 1 && path.get_char(start) == '.') || (n - start == 2
        && path.get_char(start) == '.' && path.get_char(start + 1) == '.') {
        proof {
            if n - start == 1 {
                assert(t@ =~= seq!['.']);
            }
            if n - start == 2 {
                assert(t@ =~= seq!['.', '.']);
            }
        }
        return Err(PathError::NoFileName);
    }
    proof {
        if t@ == seq!['.'] {
            assert(t@[0] == path@[start as int]);
        }
        if t@ == seq!['.', '.'] {
            assert(t@[0] == path@[start as int]);
            assert(t@[1] == path@[start + 1]);
        }
    }
    Ok(t)
}

/// The parent of `path`.
pub fn get_parent_as_string(path: &str) -> (r: Result<String, PathError>)
    ensures
        match r {
            Ok(parent) => parent_of(path@) == Some(parent@),
            Err(e) => parent_of(path@) is None && e == PathError::NoParent,
        },
{
    let n = path.unicode_len();
    proof {
        lemma_last_slash(path@);
    }
    match find_last_slash(path) {
        None => {
            if n == 0 {
                Err(PathError::NoParent)
            } else {
                Ok(String::new())
            }
        },
        Some(k) => {
            if k == 0 {
                if n == 1 {
                    Err(PathError::NoParent)
                } else {
                    let mut s = String::new();
                    push_char(&mut s, '/');
                    assert(s@ =~= seq!['/']);
                    Ok(s)
                }
            } else {
                Ok(substring(path, 0, k))
            }
        },
    }
}

/// `path` with its final component replaced by `name`.
pub fn replace_file_name(path: &str, name: &str) -> (r: String)
    ensures
        r@ == with_file_name(path@, name@),
{
    let start = tail_start(path);
    let mut s = substring(path, 0, start);
    s.append(name);
    s
}

/// The final component of `path` for messages: empty where there is none.
pub fn file_name_display(path: &str) -> (r: String)
    ensures
        r@ == match file_name_of(path@) {
            Some(name) => name,
            None => Seq::empty(),
        },
{
    match get_file_name(path) {
        Ok(name) => name,
        Err(_) => String::new(),
    }
}

/// Relies on path-absolutize's `Absolutize::absolutize`, which joins a relative
/// path to the current directory and removes `.` and `..` components. What it
/// returns depends on the current directory; `None` where it fails or where the
/// result is not UTF-8.
#[verifier::external_body]
fn absolutize(path: &str) -> (r: Option<String>)
{
    std::path::Path::new(path).absolutize().ok().and_then(|p| p.to_str().map(|s| s.to_owned()))
}

/// `path` made absolute against the current directory.
pub fn as_absolute(path: &str) -> (r: Result<String, PathError>)
    ensures
        r is Err ==> r == Err::<String, PathError>(PathError::NotResolved),
{
    match absolutize(path) {
        Some(p) => Ok(p),
        None => Err(PathError::NotResolved),
    }
}

} // verus!
