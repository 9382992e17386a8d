//! File names and extensions of `/`-separated paths.
//!
//! A path is read as a sequence of components separated by `/`. Empty
//! components and `.` components name nothing and are skipped, so that
//! `dir/db.sqlite`, `dir//db.sqlite/` and `dir/db.sqlite/.` all have the file
//! name `db.sqlite`. A path whose last named component is `..`, or which has
//! no named component at all, has no file name. This is how Unix-like systems
//! read a path.
//!
//! The file name divides at its last `.` into stem and extension; a name
//! without a `.`, or with a leading one only, is all stem.

use vstd::prelude::*;

verus! {

/// Whether `p` ends in a separator or in a `.` component.
pub open spec fn ends_unnamed(p: Seq<char>) -> bool {
    p.len() > 0 && (p.last() == '/' || (p.last() == '.' && (p.len() == 1 || p[p.len() - 2]
        == '/')))
}

/// Where the last named component of `p` ends: the length of `p` without its
/// trailing separators and `.` components.
pub open spec fn name_end(p: Seq<char>) -> nat
    decreases p.len(),
{
    if ends_unnamed(p) {
        name_end(p.drop_last())
    } else {
        p.len()
    }
}

/// Where the component that ends at `end` starts: just behind the last
/// separator before `end`, or at 0.
pub open spec fn name_start(p: Seq<char>, end: nat) -> nat
    decreases end,
{
    if end == 0 || p[end - 1] == '/' {
        end
    } else {
        name_start(p, (end - 1) as nat)
    }
}

/// The last named component of `p`, which may be `..`, or the empty sequence
/// where `p` has none.
pub open spec fn last_component(p: Seq<char>) -> Seq<char> {
    p.subrange(name_start(p, name_end(p)) as int, name_end(p) as int)
}

/// Whether `name` is the parent-directory component `..`.
pub open spec fn is_parent_dir(name: Seq<char>) -> bool {
    name.len() == 2 && name[0] == '.' && name[1] == '.'
}

/// The file name of `p`: its last named component, unless that is `..`.
pub open spec fn file_name(p: Seq<char>) -> Option<Seq<char>> {
    let name = last_component(p);
    if name.len() == 0 || is_parent_dir(name) {
        None
    } else {
        Some(name)
    }
}

/// The index of the last `.` in `name`, or -1 where it holds none.
pub open spec fn last_dot(name: Seq<char>) -> int
    decreases name.len(),
{
    if name.len() == 0 {
        -1
    } else if name.last() == '.' {
        name.len() - 1
    } else {
        last_dot(name.drop_last())
    }
}

/// The length of the stem of the file name `name`: what stands before its last
/// `.`, or the whole name where it has no `.` or only a leading one.
pub open spec fn stem_len(name: Seq<char>) -> nat {
    if last_dot(name) <= 0 {
        name.len()
    } else {
        last_dot(name) as nat
    }
}

/// Where the stem of the file name of `p` ends, for a `p` that has a file name.
pub open spec fn stem_end(p: Seq<char>) -> nat {
    name_start(p, name_end(p)) + stem_len(last_component(p))
}

/// What replacing an extension puts behind the stem: nothing for an empty
/// `ext`, else a `.` and `ext`.
pub open spec fn extension_suffix(ext: Seq<char>) -> Seq<char> {
    if ext.len() == 0 {
        ext
    } else {
        seq!['.'] + ext
    }
}

/// `p` with the extension of its file name replaced by `ext`.
///
/// A path without a file name is left as it is. Otherwise everything behind
/// the stem of the file name goes (the old extension, and any trailing
/// separators and `.` components), and a `.` and `ext` are put in its place;
/// an empty `ext` only removes.
pub open spec fn with_extension(p: Seq<char>, ext: Seq<char>) -> Seq<char> {
    if file_name(p) is None {
        p
    } else {
        p.take(stem_end(p) as int) + extension_suffix(ext)
    }
}

/// The characters of `s`, in order.
pub(crate) fn chars_of(s: &str) -> (v: Vec<char>)
    ensures
        v@ == s@,
{
    let mut v: Vec<char> = Vec::new();
    for c in it: s.chars()
        invariant
            v@ == it.seq().take(it.index() as int),
    {
        v.push(c);
    }
    v
}

/// Finds where the last named component of `p` ends.
fn find_name_end(p: &Vec<char>) -> (end: usize)
    ensures
        end == name_end(p@),
        end <= p.len(),
{
    let mut end: usize = p.len();
    assert(p@.take(end as int) == p@);
    while end > 0 && (p[end - 1] == '/' || (p[end - 1] == '.' && (end == 1 || p[end - 2] == '/')))
        invariant
            end <= p.len(),
            name_end(p@) == name_end(p@.take(end as int)),
        decreases end,
    {
        assert(p@.take(end as int).drop_last() == p@.take(end - 1));
        end -= 1;
    }
    end
}

/// Finds where the component of `p` that ends at `end` starts.
fn find_name_start(p: &Vec<char>, end: usize) -> (start: usize)
    requires
        end <= p.len(),
    ensures
        start == name_start(p@, end as nat),
        start <= end,
{
    let mut start: usize = end;
    while start > 0 && p[start - 1] != '/'
        invariant
            start <= end <= p.len(),
            name_start(p@, end as nat) == name_start(p@, start as nat),
        decreases start,
    {
        start -= 1;
    }
    start
}

/// Finds the length of the stem of the name that `p` holds from `start` to
/// `end`.
fn find_stem_len(p: &Vec<char>, start: usize, end: usize) -> (len: usize)
    requires
        start <= end <= p.len(),
    ensures
        len == stem_len(p@.subrange(start as int, end as int)),
        len <= end - start,
{
    let ghost name = p@.subrange(start as int, end as int);
    let mut i: usize = end;
    assert(name.take((i - start) as int) == name);
    while i > start && p[i - 1] != '.'
        invariant
            start <= i <= end <= p.len(),
            name == p@.subrange(start as int, end as int),
            last_dot(name) == last_dot(name.take((i - start) as int)),
        decreases i,
    {
        assert(name.take((i - start) as int).drop_last() == name.take(i - 1 - start));
        i -= 1;
    }
    if i - start <= 1 {
        end - start
    } else {
        i - 1 - start
    }
}

/// Replaces the extension of the file name of `path` by `extension`. A path
/// without a file name comes back as it is.
pub fn replace_extension(path: &str, extension: &str) -> (replaced: String)
    ensures
        replaced@ == with_extension(path@, extension@),
{
    let p = chars_of(path);
    let end = find_name_end(&p);
    let start = find_name_start(&p, end);
    if end == start || (end - start == 2 && p[start] == '.' && p[start + 1] == '.') {
        return path.to_owned();
    }
    let stem = find_stem_len(&p, start, end);
    let mut replaced = path.substring_char(0, start + stem).to_owned();
    if !extension.is_empty() {
        proof {
            reveal_strlit(".");
            assert("."@ == seq!['.']);
        }
        replaced.append(".");
        replaced.append(extension);
    }
    replaced
}

} // verus!
