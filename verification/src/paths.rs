//! A textual model of file paths. Paths are strings whose components are
//! separated by `/`; the engine only ever splits off the leading directory
//! part of a path, splits a file name at its last dot, and joins a directory
//! with a file name.

use vstd::prelude::*;
use vstd::string::StrSliceExecFns;
use vstd::string::StringExecFns;

verus! {

/// Length of the directory prefix of a path: everything up to and including
/// the last `/`, or nothing when the path has no separator.
pub open spec fn dir_prefix_len(p: Seq<char>) -> int
    decreases p.len(),
{
    if p.len() == 0 {
        0
    } else if p.last() == '/' {
        p.len() as int
    } else {
        dir_prefix_len(p.drop_last())
    }
}

pub proof fn lemma_dir_prefix_len_bounds(p: Seq<char>)
    ensures
        0 <= dir_prefix_len(p) <= p.len(),
    decreases p.len(),
{
    if p.len() > 0 && p.last() != '/' {
        lemma_dir_prefix_len_bounds(p.drop_last());
    }
}

/// The directory part of a path, trailing separator included; empty when the
/// path has no separator.
pub open spec fn dir_prefix(p: Seq<char>) -> Seq<char> {
    p.take(dir_prefix_len(p))
}

/// The file-name part of a path: everything after the last `/`.
pub open spec fn file_name(p: Seq<char>) -> Seq<char> {
    p.skip(dir_prefix_len(p))
}

/// Index of the last `.` in a file name, or -1 when there is none.
pub open spec fn last_dot(name: Seq<char>) -> int
    decreases name.len(),
{
    if name.len() == 0 {
        -1
    } else if name.last() == '.' {
        name.len() - 1
    } else {
        last_dot(name.drop_last())
    }
}

pub proof fn lemma_last_dot_bounds(name: Seq<char>)
    ensures
        -1 <= last_dot(name) < name.len(),
    decreases name.len(),
{
    if name.len() > 0 && name.last() != '.' {
        lemma_last_dot_bounds(name.drop_last());
    }
}

/// A file name without its extension: everything before the last `.`, or the
/// whole name when there is no dot.
pub open spec fn stem(name: Seq<char>) -> Seq<char> {
    if last_dot(name) < 0 {
        name
    } else {
        name.take(last_dot(name))
    }
}

/// The extension of a file name: everything after the last `.`, or empty when
/// there is no dot.
pub open spec fn extension(name: Seq<char>) -> Seq<char> {
    if last_dot(name) < 0 {
        Seq::empty()
    } else {
        name.skip(last_dot(name) + 1)
    }
}

/// The extension of the file-name part of a path.
pub open spec fn path_extension(p: Seq<char>) -> Seq<char> {
    extension(file_name(p))
}

/// A directory joined with a file name, inserting a `/` only where one is
/// missing.
pub open spec fn join_dir(dir: Seq<char>, name: Seq<char>) -> Seq<char> {
    if dir.len() == 0 {
        name
    } else if dir.last() == '/' {
        dir + name
    } else {
        dir + seq!['/'] + name
    }
}

/// Index just after the last `/` of a path, computed from the end.
pub fn dir_split_index(p: &str) -> (k: usize)
    ensures
        k as int == dir_prefix_len(p@),
{
    let len = p.unicode_len();
    let mut k = len;
    proof {
        assert(p@.take(len as int) =~= p@);
    }
    while k > 0
        invariant
            k <= len,
            len == p@.len(),
            dir_prefix_len(p@) == dir_prefix_len(p@.take(k as int)),
        decreases k,
    {
        if p.get_char(k - 1) == '/' {
            return k;
        }
        proof {
            assert(p@.take(k as int).drop_last() =~= p@.take(k as int - 1));
        }
        k = k - 1;
    }
    0
}

/// Index of the last `.` of a file name, or `None` when there is none,
/// computed from the end.
pub fn last_dot_index(name: &str) -> (r: Option<usize>)
    ensures
        match r {
            Some(i) => last_dot(name@) == i as int,
            None => last_dot(name@) == -1,
        },
{
    let len = name.unicode_len();
    let mut k = len;
    proof {
        assert(name@.take(len as int) =~= name@);
    }
    while k > 0
        invariant
            k <= len,
            len == name@.len(),
            last_dot(name@) == last_dot(name@.take(k as int)),
        decreases k,
    {
        if name.get_char(k - 1) == '.' {
            return Some(k - 1);
        }
        proof {
            assert(name@.take(k as int).drop_last() =~= name@.take(k as int - 1));
        }
        k = k - 1;
    }
    None
}

/// The file-name part of a path, borrowed from it.
pub fn file_name_str<'a>(p: &'a str) -> (r: &'a str)
    ensures
        r@ == file_name(p@),
{
    let len = p.unicode_len();
    let k = dir_split_index(p);
    proof {
        lemma_dir_prefix_len_bounds(p@);
    }
    let r = p.substring_char(k, len);
    proof {
        assert(p@.subrange(k as int, len as int) =~= file_name(p@));
    }
    r
}

/// The stem of a file name, as an owned string.
pub fn stem_exec(fname: &str) -> (r: String)
    ensures
        r@ == stem(fname@),
{
    match last_dot_index(fname) {
        None => fname.to_owned(),
        Some(d) => {
            proof {
                lemma_last_dot_bounds(fname@);
            }
            let s = fname.substring_char(0, d);
            proof {
                assert(fname@.subrange(0, d as int) =~= stem(fname@));
            }
            s.to_owned()
        },
    }
}

/// The extension of the file-name part of a path, as an owned string.
pub fn path_extension_exec(p: &str) -> (r: String)
    ensures
        r@ == path_extension(p@),
{
    let name = file_name_str(p);
    match last_dot_index(name) {
        None => {
            let r = String::new();
            proof {
                assert(r@ =~= path_extension(p@));
            }
            r
        },
        Some(d) => {
            let len = name.unicode_len();
            proof {
                lemma_last_dot_bounds(name@);
            }
            let e = name.substring_char(d + 1, len);
            proof {
                assert(name@.subrange((d + 1) as int, len as int) =~= path_extension(p@));
            }
            e.to_owned()
        },
    }
}

/// Joins a directory and a file name into one owned path.
pub fn join_dir_exec(dir: &str, name: &str) -> (r: String)
    ensures
        r@ == join_dir(dir@, name@),
{
    let dlen = dir.unicode_len();
    let mut s = String::new();
    if dlen == 0 {
        s.append(name);
        proof {
            assert(s@ =~= join_dir(dir@, name@));
        }
        return s;
    }
    s.append(dir);
    if dir.get_char(dlen - 1) != '/' {
        s.append("/");
        proof {
            reveal_strlit("/");
            assert(s@ =~= dir@ + seq!['/']);
        }
    }
    s.append(name);
    proof {
        assert(s@ =~= join_dir(dir@, name@));
    }
    s
}

} // verus!
