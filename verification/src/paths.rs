//! Pure path derivation.
//!
//! Paths are modelled as plain strings built from `/`-separated components.
//! The file name of a path follows the usual path rules: trailing
//! separators and trailing `.` components are ignored, and a path whose
//! last component is `..` or empty has no file name.  A file name's
//! extension is the text after its last dot, where a dot in the first
//! position (a hidden file) does not count as an extension separator.

use vstd::prelude::*;

verus! {

/// The length of the directory prefix of `s`: the index just past the last
/// `/`, or `0` when `s` holds no separator.
pub open spec fn dir_prefix_len(s: Seq<char>) -> int
    decreases s.len(),
{
    if s.len() == 0 {
        0
    } else if s[s.len() - 1] == '/' {
        s.len() as int
    } else {
        dir_prefix_len(s.drop_last())
    }
}

/// The base name of `s`: everything after the last `/` (all of `s` when
/// there is none).
pub open spec fn basename_of(s: Seq<char>) -> Seq<char> {
    s.subrange(dir_prefix_len(s), s.len() as int)
}

/// `s` with every trailing `/`, and every trailing `.` path component,
/// removed: `a/b//`, `a/b/.` and `a/b/.//` all end at `a/b`.
pub open spec fn trim_path_end(s: Seq<char>) -> Seq<char>
    decreases s.len(),
{
    if s.len() == 0 {
        s
    } else if s.last() == '/' {
        trim_path_end(s.drop_last())
    } else if s.last() == '.' && (s.len() == 1 || s[s.len() - 2] == '/') {
        trim_path_end(s.drop_last())
    } else {
        s
    }
}

/// The file name of `s`: its last component, with trailing separators and
/// trailing `.` components ignored.  Empty when `s` ends in a separator run
/// only; the caller must still rule out a `..` component.
pub open spec fn file_name_of(s: Seq<char>) -> Seq<char> {
    basename_of(trim_path_end(s))
}

/// Whether `s` has a usable file name: its last component, trailing
/// separators and `.` components aside, is neither empty nor `..`.
pub open spec fn has_file_name(s: Seq<char>) -> bool {
    file_name_of(s).len() > 0 && file_name_of(s) != seq!['.', '.']
}

/// The index just past the last `.` of `b`, or `0` when `b` holds no dot.
pub open spec fn after_last_dot(b: Seq<char>) -> int
    decreases b.len(),
{
    if b.len() == 0 {
        0
    } else if b[b.len() - 1] == '.' {
        b.len() as int
    } else {
        after_last_dot(b.drop_last())
    }
}

/// The stem of a file name `b`: the text before its last `.`, except that a
/// dot in the first position starts no extension, so the stem is then all of
/// `b`.
pub open spec fn stem_of(b: Seq<char>) -> Seq<char> {
    let d = after_last_dot(b);
    if d >= 2 {
        b.subrange(0, d - 1)
    } else {
        b
    }
}

/// `name` appended to the directory `dir`, inserting a `/` separator unless
/// `dir` is empty or already ends in one.
pub open spec fn join_path(dir: Seq<char>, name: Seq<char>) -> Seq<char> {
    if dir.len() == 0 {
        name
    } else if dir[dir.len() - 1] == '/' {
        dir + name
    } else {
        dir + seq!['/'] + name
    }
}

/// `stem` with the extension `ext` appended; an empty extension leaves the
/// stem bare.
pub open spec fn with_extension(stem: Seq<char>, ext: Seq<char>) -> Seq<char> {
    if ext.len() == 0 {
        stem
    } else {
        stem + seq!['.'] + ext
    }
}

/// The summary path derived for the input `input`: the file name of
/// `input`, its extension replaced by `ext`, placed inside `dir`.
pub open spec fn summary_path_spec(dir: Seq<char>, ext: Seq<char>, input: Seq<char>) -> Seq<char> {
    join_path(dir, with_extension(stem_of(file_name_of(input)), ext))
}

/// The path of the aggregate artifact: `base` with extension `ext`, placed
/// inside `dir`.
pub open spec fn aggregate_filename_spec(dir: Seq<char>, base: Seq<char>, ext: Seq<char>) -> Seq<char> {
    join_path(dir, with_extension(stem_of(base), ext))
}

/// The glob pattern matching every summary file inside `dir`: the wildcard
/// file name `*` with extension `ext`.
pub open spec fn glob_pattern_spec(dir: Seq<char>, ext: Seq<char>) -> Seq<char> {
    join_path(dir, with_extension(seq!['*'], ext))
}

/// The directory prefix never reaches past the end of the string.
pub proof fn lemma_dir_prefix_len_bounds(s: Seq<char>)
    ensures
        0 <= dir_prefix_len(s) <= s.len(),
    decreases s.len(),
{
    if s.len() == 0 {
    } else if s[s.len() - 1] == '/' {
    } else {
        lemma_dir_prefix_len_bounds(s.drop_last());
    }
}

/// The extension split point never reaches past the end of the file name.
pub proof fn lemma_after_last_dot_bounds(b: Seq<char>)
    ensures
        0 <= after_last_dot(b) <= b.len(),
    decreases b.len(),
{
    if b.len() == 0 {
    } else if b[b.len() - 1] == '.' {
    } else {
        lemma_after_last_dot_bounds(b.drop_last());
    }
}

/// The end of `s@.subrange(0, k)` once every trailing `/`, and every
/// trailing `.` path component, is removed.
pub fn trim_end_from(s: &str, k: usize) -> (r: usize)
    requires
        k <= s@.len(),
    ensures
        r <= k,
        s@.subrange(0, r as int) == trim_path_end(s@.subrange(0, k as int)),
    decreases k,
{
    if k == 0 {
        proof {
            assert(s@.subrange(0, 0) =~= Seq::<char>::empty());
        }
        return 0;
    }
    let c = s.get_char(k - 1);
    let strip: bool = if c == '/' {
        true
    } else if c == '.' {
        k == 1 || s.get_char(k - 2) == '/'
    } else {
        false
    };
    proof {
        let p = s@.subrange(0, k as int);
        assert(p.drop_last() =~= s@.subrange(0, k - 1));
        assert(p.last() == s@[k - 1]);
        if k >= 2 {
            assert(p[k - 2] == s@[k - 2]);
        }
    }
    if strip {
        trim_end_from(s, k - 1)
    } else {
        k
    }
}

/// The index just past the last `/` of `s`, or `0` when `s` holds none.
pub fn last_slash_end(s: &str) -> (r: usize)
    ensures
        r == dir_prefix_len(s@),
{
    let n = s.unicode_len();
    let mut i: usize = 0;
    let mut r: usize = 0;
    while i < n
        invariant
            n == s@.len(),
            i <= n,
            r == dir_prefix_len(s@.subrange(0, i as int)),
        decreases n - i,
    {
        proof {
            let p = s@.subrange(0, i + 1);
            assert(p.drop_last() =~= s@.subrange(0, i as int));
            assert(p[p.len() - 1] == s@[i as int]);
        }
        if s.get_char(i) == '/' {
            r = i + 1;
        }
        i = i + 1;
    }
    proof {
        assert(s@.subrange(0, n as int) =~= s@);
    }
    r
}

/// The index just past the last `.` of `b`, or `0` when `b` holds none.
pub fn last_dot_end(b: &str) -> (r: usize)
    ensures
        r == after_last_dot(b@),
{
    let n = b.unicode_len();
    let mut i: usize = 0;
    let mut r: usize = 0;
    while i < n
        invariant
            n == b@.len(),
            i <= n,
            r == after_last_dot(b@.subrange(0, i as int)),
        decreases n - i,
    {
        proof {
            let p = b@.subrange(0, i + 1);
            assert(p.drop_last() =~= b@.subrange(0, i as int));
            assert(p[p.len() - 1] == b@[i as int]);
        }
        if b.get_char(i) == '.' {
            r = i + 1;
        }
        i = i + 1;
    }
    proof {
        assert(b@.subrange(0, n as int) =~= b@);
    }
    r
}

/// `name` placed inside the directory `dir`, with a separator inserted
/// unless `dir` is empty or already ends in one.
pub fn join(dir: &str, name: &str) -> (r: String)
    ensures
        r@ == join_path(dir@, name@),
{
    proof {
        reveal_strlit("/");
    }
    let dlen = dir.unicode_len();
    let mut out = String::from_str(dir);
    if dlen > 0 && dir.get_char(dlen - 1) != '/' {
        out.append("/");
    }
    out.append(name);
    proof {
        assert(out@ =~= join_path(dir@, name@));
    }
    out
}

/// `stem` with the extension `ext` appended; an empty extension leaves the
/// stem bare.
pub fn apply_extension(stem: &str, ext: &str) -> (r: String)
    ensures
        r@ == with_extension(stem@, ext@),
{
    proof {
        reveal_strlit(".");
    }
    let mut out = String::from_str(stem);
    if ext.unicode_len() > 0 {
        out.append(".");
        out.append(ext);
    }
    proof {
        assert(out@ =~= with_extension(stem@, ext@));
    }
    out
}

/// The stem of the file name `b`: its text up to the last `.`, where a dot
/// in the first position starts no extension.
pub fn stem(b: &str) -> (r: &str)
    ensures
        r@ == stem_of(b@),
{
    let d = last_dot_end(b);
    proof {
        lemma_after_last_dot_bounds(b@);
    }
    if d >= 2 {
        b.substring_char(0, d - 1)
    } else {
        b
    }
}

} // verus!
