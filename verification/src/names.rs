//! File-name arithmetic on path strings.
//!
//! A path here is plain text; the bare file name is everything after the last
//! `/`, and the stem is the name with its last extension removed (a dot at
//! position zero, as in a hidden file, does not start an extension).

use vstd::prelude::*;
use vstd::string::StrSliceExecFns;
use vstd::string::StringExecFns;

verus! {

/// Everything after the last `/` of `s` (all of `s` when it has no `/`).
pub open spec fn spec_file_name(s: Seq<char>) -> Seq<char>
    decreases s.len(),
{
    if s.len() == 0 {
        s
    } else if s.last() == '/' {
        Seq::empty()
    } else {
        spec_file_name(s.drop_last()).push(s.last())
    }
}

/// Index of the last `.` of `s` that does not stand at position zero,
/// or `-1` when there is none.
pub open spec fn spec_last_dot(s: Seq<char>) -> int
    decreases s.len(),
{
    if s.len() <= 1 {
        -1
    } else if s.last() == '.' {
        s.len() - 1
    } else {
        spec_last_dot(s.drop_last())
    }
}

/// The name with its last extension removed.
pub open spec fn spec_file_stem(s: Seq<char>) -> Seq<char> {
    if spec_last_dot(s) >= 1 {
        s.subrange(0, spec_last_dot(s))
    } else {
        s
    }
}

/// A path extended by one entry name: a `/` is put between them unless the
/// base already ends in one, and an empty base contributes nothing.
pub open spec fn spec_join(base: Seq<char>, name: Seq<char>) -> Seq<char> {
    if base.len() == 0 {
        name
    } else if base.last() == '/' {
        base + name
    } else {
        base + "/"@ + name
    }
}

/// Joins a directory path and an entry name.
pub fn join_path(base: &str, name: &str) -> (r: String)
    ensures
        r@ == spec_join(base@, name@),
{
    let n = base.unicode_len();
    if n == 0 {
        return name.to_owned();
    }
    let last = base.get_char(n - 1);
    let mut joined = base.to_owned();
    if last != '/' {
        joined.append("/");
    }
    joined.append(name);
    joined
}

/// Bare file name of a path: the text after its last `/`.
pub fn file_name(path: &str) -> (r: String)
    ensures
        r@ == spec_file_name(path@),
{
    let n = path.unicode_len();
    let mut start: usize = 0;
    let mut i: usize = 0;
    while i < n
        invariant
            n == path@.len(),
            start <= i <= n,
            spec_file_name(path@.subrange(0, i as int)) == path@.subrange(start as int, i as int),
        decreases n - i,
    {
        let c = path.get_char(i);
        proof {
            let t = path@.subrange(0, i + 1);
            assert(t.drop_last() == path@.subrange(0, i as int));
            assert(t.last() == path@[i as int]);
        }
        if c == '/' {
            start = i + 1;
            proof {
                assert(spec_file_name(path@.subrange(0, i + 1)) == path@.subrange(
                    start as int,
                    i + 1,
                ));
            }
        } else {
            proof {
                assert(spec_file_name(path@.subrange(0, i + 1)) == path@.subrange(
                    start as int,
                    i + 1,
                ));
            }
        }
        i = i + 1;
    }
    proof {
        assert(path@.subrange(0, n as int) == path@);
    }
    let tail = path.substring_char(start, n);
    tail.to_owned()
}

/// The name with its last extension removed, as the display title of a file.
pub fn file_stem(name: &str) -> (r: String)
    ensures
        r@ == spec_file_stem(name@),
{
    let n = name.unicode_len();
    let mut j: usize = n;
    proof {
        assert(name@.subrange(0, n as int) == name@);
    }
    while j > 1
        invariant
            n == name@.len(),
            j <= n,
            spec_last_dot(name@) == spec_last_dot(name@.subrange(0, j as int)),
        decreases j,
    {
        let c = name.get_char(j - 1);
        proof {
            let t = name@.subrange(0, j as int);
            assert(t.last() == name@[j - 1]);
            assert(t.drop_last() == name@.subrange(0, j - 1));
        }
        if c == '.' {
            let stem = name.substring_char(0, j - 1);
            return stem.to_owned();
        }
        j = j - 1;
    }
    name.to_owned()
}

} // verus!
