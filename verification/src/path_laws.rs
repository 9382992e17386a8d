//! What holds of file names and of replaced extensions.

use crate::path::{
    ends_unnamed, extension_suffix, file_name, last_component, last_dot, name_end, name_start,
    stem_end, stem_len, with_extension,
};
use vstd::prelude::*;

verus! {

/// The last named component of `p` is delimited as its definition promises:
/// it lies within `p`, holds no separator, has a separator or nothing before
/// it, and what follows it names nothing.
pub proof fn lemma_last_component_bounds(p: Seq<char>)
    ensures
        name_start(p, name_end(p)) <= name_end(p) <= p.len(),
        !last_component(p).contains('/'),
        name_start(p, name_end(p)) == 0 || p[name_start(p, name_end(p)) - 1] == '/',
        !ends_unnamed(p.take(name_end(p) as int)),
{
    lemma_name_end(p);
    lemma_name_start(p, name_end(p));
    let start = name_start(p, name_end(p));
    let name = last_component(p);
    assert forall|i: int| 0 <= i < name.len() implies name[i] != '/' by {
        assert(name[i] == p[start + i]);
    }
}

/// The last named component ends within `p`, and not in a separator or a
/// `.` component.
pub proof fn lemma_name_end(p: Seq<char>)
    ensures
        name_end(p) <= p.len(),
        !ends_unnamed(p.take(name_end(p) as int)),
    decreases p.len(),
{
    if ends_unnamed(p) {
        lemma_name_end(p.drop_last());
        assert(p.drop_last().take(name_end(p) as int) == p.take(name_end(p) as int));
    } else {
        assert(p.take(p.len() as int) == p);
    }
}

/// The component that ends at `end` holds no separator, and has a separator
/// or nothing before it.
pub proof fn lemma_name_start(p: Seq<char>, end: nat)
    requires
        end <= p.len(),
    ensures
        name_start(p, end) <= end,
        name_start(p, end) == 0 || p[name_start(p, end) - 1] == '/',
        forall|i: int| name_start(p, end) <= i < end ==> p[i] != '/',
    decreases end,
{
    if end != 0 && p[end - 1] != '/' {
        lemma_name_start(p, (end - 1) as nat);
    }
}

/// A path that does not end in a separator or a `.` component ends with its
/// last named component.
pub proof fn lemma_name_end_is(p: Seq<char>)
    requires
        !ends_unnamed(p),
    ensures
        name_end(p) == p.len(),
{
}

/// A stretch of `p` that holds no separator and has a separator or nothing
/// before it is one component: the component that ends at `end` starts at
/// `start`.
pub proof fn lemma_name_start_is(p: Seq<char>, start: nat, end: nat)
    requires
        start <= end <= p.len(),
        start == 0 || p[start - 1] == '/',
        forall|i: int| start <= i < end ==> p[i] != '/',
    ensures
        name_start(p, end) == start,
    decreases end - start,
{
    if end > start {
        lemma_name_start_is(p, start, (end - 1) as nat);
    }
}

/// `last_dot` finds a `.`, where there is one, and no `.` stands behind it.
pub proof fn lemma_last_dot(name: Seq<char>)
    ensures
        -1 <= last_dot(name) < name.len(),
        last_dot(name) >= 0 ==> name[last_dot(name)] == '.',
        forall|i: int| last_dot(name) < i < name.len() ==> name[i] != '.',
    decreases name.len(),
{
    if name.len() != 0 && name.last() != '.' {
        lemma_last_dot(name.drop_last());
        assert forall|i: int| last_dot(name) < i < name.len() implies name[i] != '.' by {
            if i < name.len() - 1 {
                assert(name[i] == name.drop_last()[i]);
            }
        }
    }
}

/// The last `.` of a name is the one behind which no `.` stands.
pub proof fn lemma_last_dot_is(name: Seq<char>, dot: int)
    requires
        0 <= dot < name.len(),
        name[dot] == '.',
        forall|i: int| dot < i < name.len() ==> name[i] != '.',
    ensures
        last_dot(name) == dot,
    decreases name.len(),
{
    if name.len() - 1 > dot {
        lemma_last_dot_is(name.drop_last(), dot);
    }
}

/// The stem of a file name is never empty and never longer than the name.
pub proof fn lemma_stem_len_bounds(name: Seq<char>)
    requires
        name.len() > 0,
    ensures
        0 < stem_len(name) <= name.len(),
{
    lemma_last_dot(name);
}

/// Whether `dir` can stand before a file name: it is empty or ends in a
/// separator.
pub open spec fn is_directory_prefix(dir: Seq<char>) -> bool {
    dir.len() == 0 || dir.last() == '/'
}

/// A file name without an extension gets one: in `dir` followed by a `name`
/// that holds no separator and no `.` but perhaps a leading one, the extension
/// is put behind the name.
pub proof fn lemma_with_extension_adds(dir: Seq<char>, name: Seq<char>, ext: Seq<char>)
    requires
        is_directory_prefix(dir),
        name.len() > 0,
        !name.contains('/'),
        forall|i: int| 0 < i < name.len() ==> name[i] != '.',
        !(name.len() == 1 && name[0] == '.'),
    ensures
        file_name(dir + name) == Some(name),
        with_extension(dir + name, ext) == dir + name + extension_suffix(ext),
{
    let p = dir + name;
    assert(p.last() == name.last());
    assert(name.contains(name.last()));
    assert(p.len() >= 2 && p.last() == '.' ==> p[p.len() - 2] != '/') by {
        if name.len() >= 2 {
            assert(p[p.len() - 2] == name[name.len() - 2]);
            assert(name.contains(name[name.len() - 2]));
        }
    }
    lemma_name_end_is(p);
    assert forall|i: int| dir.len() <= i < p.len() implies p[i] != '/' by {
        assert(p[i] == name[i - dir.len()]);
        assert(name.contains(name[i - dir.len()]));
    }
    assert(dir.len() > 0 ==> p[dir.len() - 1] == dir.last());
    lemma_name_start_is(p, dir.len(), p.len());
    assert(last_component(p) == name);
    lemma_last_dot(name);
    assert(stem_len(name) == name.len());
    assert(p.take(p.len() as int) == p);
    assert(dir + name + ext == p + ext);
}

/// A file name with an extension gets another: in `dir` followed by `stem`,
/// a `.` and the extension `old`, the new extension takes the place of `old`.
/// The stem may hold further `.`s; it is not empty, and `stem`, `.` and `old`
/// together are not `..`.
pub proof fn lemma_with_extension_replaces(
    dir: Seq<char>,
    stem: Seq<char>,
    old: Seq<char>,
    ext: Seq<char>,
)
    requires
        is_directory_prefix(dir),
        stem.len() > 0,
        !stem.contains('/'),
        !old.contains('/'),
        !old.contains('.'),
        !(old.len() == 0 && stem.len() == 1 && stem[0] == '.'),
    ensures
        file_name(dir + stem + seq!['.'] + old) == Some(stem + seq!['.'] + old),
        with_extension(dir + stem + seq!['.'] + old, ext) == dir + stem + extension_suffix(ext),
{
    let name = stem + seq!['.'] + old;
    let p = dir + stem + seq!['.'] + old;
    assert(p == dir + name);
    assert forall|i: int| 0 <= i < name.len() implies name[i] != '/' by {
        if i < stem.len() {
            assert(stem.contains(stem[i]));
        } else if i > stem.len() {
            assert(old.contains(old[i - stem.len() - 1]));
        }
    }
    assert(!ends_unnamed(p)) by {
        if old.len() > 0 {
            assert(p.last() == old.last());
            assert(old.contains(old.last()));
        } else {
            assert(p[p.len() - 2] == stem.last());
            assert(stem.contains(stem.last()));
        }
    }
    lemma_name_end_is(p);
    assert forall|i: int| dir.len() <= i < p.len() implies p[i] != '/' by {
        assert(p[i] == name[i - dir.len()]);
    }
    assert(dir.len() > 0 ==> p[dir.len() - 1] == dir.last());
    lemma_name_start_is(p, dir.len(), p.len());
    assert(last_component(p) == name);
    assert(name[stem.len() as int] == '.');
    assert forall|i: int| stem.len() < i < name.len() implies name[i] != '.' by {
        assert(name[i] == old[i - stem.len() - 1]);
        assert(old.contains(old[i - stem.len() - 1]));
    }
    lemma_last_dot_is(name, stem.len() as int);
    assert(p.take((dir.len() + stem.len()) as int) == dir + stem);
    assert(dir + stem + seq!['.'] + ext == (dir + stem) + (seq!['.'] + ext));
}

/// Whether `ext` can stand as the whole extension of a file name: it is not
/// empty and holds neither a separator nor a `.`.
pub open spec fn is_plain_extension(ext: Seq<char>) -> bool {
    ext.len() > 0 && !ext.contains('/') && !ext.contains('.')
}

/// The file name of `p`, with its extension replaced by `ext`.
pub open spec fn renamed(p: Seq<char>, ext: Seq<char>) -> Seq<char> {
    last_component(p).take(stem_len(last_component(p)) as int) + seq!['.'] + ext
}

/// Replacing the extension of a path that has a file name keeps the
/// directory and the stem, and gives the file name the new extension.
pub proof fn lemma_with_extension_file_name(p: Seq<char>, ext: Seq<char>)
    requires
        file_name(p) is Some,
        is_plain_extension(ext),
    ensures
        file_name(with_extension(p, ext)) == Some(renamed(p, ext)),
        stem_end(with_extension(p, ext)) == stem_end(p),
        with_extension(p, ext).take(stem_end(p) as int) == p.take(stem_end(p) as int),
{
    lemma_last_component_bounds(p);
    let start = name_start(p, name_end(p));
    let name = last_component(p);
    lemma_stem_len_bounds(name);
    let stem = stem_len(name);
    let q = with_extension(p, ext);
    assert(q == p.take((start + stem) as int) + seq!['.'] + ext);
    assert(q.len() == start + stem + 1 + ext.len());
    assert(q.last() == ext.last());
    assert(ext.contains(ext.last()));
    lemma_name_end_is(q);
    assert forall|i: int| start <= i < q.len() implies q[i] != '/' by {
        if i < start + stem {
            assert(q[i] == name[i - start]);
            assert(name.contains(name[i - start]));
        } else if i > start + stem {
            assert(q[i] == ext[i - start - stem - 1]);
            assert(ext.contains(ext[i - start - stem - 1]));
        }
    }
    assert(start > 0 ==> q[start - 1] == p[start - 1]);
    lemma_name_start_is(q, start, q.len());
    let renamed_name = last_component(q);
    assert(renamed_name == renamed(p, ext));
    assert(renamed_name[stem as int] == '.');
    assert forall|i: int| stem < i < renamed_name.len() implies renamed_name[i] != '.' by {
        assert(renamed_name[i] == ext[i - stem - 1]);
        assert(ext.contains(ext[i - stem - 1]));
    }
    lemma_last_dot_is(renamed_name, stem as int);
    assert(q.take((start + stem) as int) == p.take((start + stem) as int));
}

/// Replacing an extension that was itself put there by a replacement gives
/// what replacing the first one would have given: both results are siblings
/// of the same stem.
pub proof fn lemma_with_extension_twice(p: Seq<char>, first: Seq<char>, second: Seq<char>)
    requires
        is_plain_extension(first),
    ensures
        with_extension(with_extension(p, first), second) == with_extension(p, second),
{
    if file_name(p) is Some {
        lemma_with_extension_file_name(p, first);
    }
}

/// Two different extensions give two different paths, where there is a file
/// name to carry them.
pub proof fn lemma_with_extension_injective(p: Seq<char>, first: Seq<char>, second: Seq<char>)
    requires
        file_name(p) is Some,
        first.len() > 0,
        second.len() > 0,
        with_extension(p, first) == with_extension(p, second),
    ensures
        first == second,
{
    lemma_last_component_bounds(p);
    lemma_stem_len_bounds(last_component(p));
    let cut = stem_end(p) as int + 1;
    let a = with_extension(p, first);
    let b = with_extension(p, second);
    assert(a.len() == cut + first.len());
    assert(b.len() == cut + second.len());
    assert forall|i: int| 0 <= i < first.len() implies first[i] == second[i] by {
        assert(a[cut + i] == first[i]);
        assert(b[cut + i] == second[i]);
    }
    assert(first =~= second);
}

/// A replaced extension shows at the end of the path, behind a `.`.
pub proof fn lemma_with_extension_suffix(p: Seq<char>, ext: Seq<char>)
    requires
        file_name(p) is Some,
        ext.len() > 0,
    ensures
        (seq!['.'] + ext).is_suffix_of(with_extension(p, ext)),
{
    lemma_last_component_bounds(p);
    lemma_stem_len_bounds(last_component(p));
    let q = with_extension(p, ext);
    let tail = seq!['.'] + ext;
    assert(q.len() == stem_end(p) + tail.len());
    assert(q.skip(q.len() - tail.len()) =~= tail);
}

} // verus!
