//! The path grammar of the launcher.
//!
//! A path is a text whose components are separated by `/` or `\`, whatever
//! the platform: catalogued targets are Windows paths, and they must be read
//! the same way wherever the launcher runs. Only the last component is ever
//! taken apart: into a stem and an extension at its last dot.

use vstd::prelude::*;
use crate::text::{chars_of, lowercase_of, opt_view, slice_of, string_of, to_lowercase};

verus! {

/// Whether a character separates path components.
pub open spec fn is_separator(c: char) -> bool {
    c == '/' || c == '\\'
}

/// A path without what ends it to no effect: the separators at its end,
/// and the `.` components at its end, each of which stands for the
/// directory before it.
pub open spec fn without_trailing_filler(p: Seq<char>) -> Seq<char>
    decreases p.len(),
{
    if p.len() > 0 && is_separator(p.last()) {
        without_trailing_filler(p.drop_last())
    } else if p.len() >= 2 && p.last() == '.' && is_separator(p[p.len() - 2]) {
        without_trailing_filler(p.drop_last())
    } else {
        p
    }
}

/// The position at which the last component of `p` begins: just after the
/// last separator, or 0 when there is none.
pub open spec fn last_component_start(p: Seq<char>) -> int
    decreases p.len(),
{
    if p.len() == 0 || is_separator(p.last()) {
        p.len() as int
    } else {
        last_component_start(p.drop_last())
    }
}

/// The position of the last dot of `name`, or -1 when it has none.
pub open spec fn last_dot(name: Seq<char>) -> int
    decreases name.len(),
{
    if name.len() == 0 {
        -1
    } else if name.last() == '.' {
        name.len() - 1
    } else {
        last_dot(name.drop_last())
    }
}

/// The last component of a path, with the separators and the `.`
/// components at its end set aside: `foo.txt` for `dir/foo.txt/.`. There is
/// none when nothing is left, or when what is left is `.` or `..`.
pub open spec fn file_name_of(p: Seq<char>) -> Option<Seq<char>> {
    let t = without_trailing_filler(p);
    let name = t.subrange(last_component_start(t), t.len() as int);
    if name.len() == 0 || name == seq!['.'] || name == seq!['.', '.'] {
        None
    } else {
        Some(name)
    }
}

/// The extension of a path: what follows the last dot of its file name. A
/// name without a dot has none, and neither has a name whose only dot is its
/// first character.
pub open spec fn extension_of(p: Seq<char>) -> Option<Seq<char>> {
    match file_name_of(p) {
        None => None,
        Some(name) => {
            let dot = last_dot(name);
            if dot <= 0 {
                None
            } else {
                Some(name.subrange(dot + 1, name.len() as int))
            }
        },
    }
}

/// The stem of a path: its file name without the extension and its dot.
pub open spec fn file_stem_of(p: Seq<char>) -> Option<Seq<char>> {
    match file_name_of(p) {
        None => None,
        Some(name) => {
            let dot = last_dot(name);
            if dot <= 0 {
                Some(name)
            } else {
                Some(name.subrange(0, dot))
            }
        },
    }
}

/// A directory prefix without the separators that end it; a root (`/`, or a
/// drive and its separator) keeps one.
pub open spec fn directory_part(d: Seq<char>) -> Seq<char>
    decreases d.len(),
{
    if d.len() >= 2 && is_separator(d.last()) && d[d.len() - 2] != ':' {
        directory_part(d.drop_last())
    } else {
        d
    }
}

/// The directory that holds the last component of a path, with the
/// separators and the `.` components at its end set aside. A path of which
/// nothing is left has none; a bare file name has the empty directory.
pub open spec fn parent_of(p: Seq<char>) -> Option<Seq<char>> {
    let t = without_trailing_filler(p);
    if t.len() == 0 {
        None
    } else {
        Some(directory_part(t.subrange(0, last_component_start(t))))
    }
}

/// The extension of a path in lowercase, empty when the path has none.
pub open spec fn lower_extension_of(p: Seq<char>) -> Seq<char> {
    match extension_of(p) {
        Some(e) => lowercase_of(e),
        None => Seq::empty(),
    }
}

/// The length of `p` without the separators and `.` components at its
/// end.
fn trimmed_len(p: &Vec<char>) -> (n: usize)
    ensures
        n <= p.len(),
        p@.take(n as int) == without_trailing_filler(p@),
{
    let mut n: usize = p.len();
    assert(p@.take(n as int) == p@);
    while n > 0 && (p[n - 1] == '/' || p[n - 1] == '\\' || (n >= 2 && p[n - 1] == '.' && (p[n - 2]
        == '/' || p[n - 2] == '\\')))
        invariant
            n <= p.len(),
            without_trailing_filler(p@.take(n as int)) == without_trailing_filler(p@),
        decreases n,
    {
        assert(p@.take(n as int).drop_last() == p@.take(n - 1));
        n -= 1;
    }
    n
}

/// Where the last component of the first `n` characters of `p` begins.
fn component_start(p: &Vec<char>, n: usize) -> (start: usize)
    requires
        n <= p.len(),
    ensures
        start <= n,
        start == last_component_start(p@.take(n as int)),
{
    let mut i: usize = n;
    while i > 0 && !(p[i - 1] == '/' || p[i - 1] == '\\')
        invariant
            i <= n <= p.len(),
            last_component_start(p@.take(i as int)) == last_component_start(p@.take(n as int)),
        decreases i,
    {
        assert(p@.take(i as int).drop_last() == p@.take(i - 1));
        i -= 1;
    }
    i
}

/// The position of the last dot of `name`, if it has one.
fn dot_position(name: &Vec<char>) -> (dot: Option<usize>)
    ensures
        match dot {
            Some(d) => d < name.len() && d == last_dot(name@),
            None => last_dot(name@) == -1,
        },
{
    let mut i: usize = name.len();
    assert(name@.take(i as int) == name@);
    while i > 0
        invariant
            i <= name.len(),
            last_dot(name@.take(i as int)) == last_dot(name@),
        decreases i,
    {
        if name[i - 1] == '.' {
            return Some(i - 1);
        }
        assert(name@.take(i as int).drop_last() == name@.take(i - 1));
        i -= 1;
    }
    None
}

/// The last component of a path as characters.
fn name_chars(p: &Vec<char>) -> (r: Option<Vec<char>>)
    ensures
        match r {
            Some(name) => file_name_of(p@) == Some(name@),
            None => file_name_of(p@) is None,
        },
{
    let end = trimmed_len(p);
    let start = component_start(p, end);
    let name = slice_of(p, start, end);
    assert(name@ == p@.take(end as int).subrange(start as int, end as int));
    if name.len() == 0 {
        None
    } else if name.len() == 1 && name[0] == '.' {
        assert(name@ == seq!['.']);
        None
    } else if name.len() == 2 && name[0] == '.' && name[1] == '.' {
        assert(name@ == seq!['.', '.']);
        None
    } else {
        assert(name@ != seq!['.']) by {
            if name@ == seq!['.'] {
                assert(name@.len() == 1 && name@[0] == '.');
            }
        }
        assert(name@ != seq!['.', '.']) by {
            if name@ == seq!['.', '.'] {
                assert(name@.len() == 2 && name@[0] == '.' && name@[1] == '.');
            }
        }
        Some(name)
    }
}

/// The extension of a path as characters.
pub(crate) fn extension_chars(p: &Vec<char>) -> (r: Option<Vec<char>>)
    ensures
        match r {
            Some(e) => extension_of(p@) == Some(e@),
            None => extension_of(p@) is None,
        },
{
    match name_chars(p) {
        None => None,
        Some(name) => match dot_position(&name) {
            None => None,
            Some(dot) => if dot == 0 {
                None
            } else {
                Some(slice_of(&name, dot + 1, name.len()))
            },
        },
    }
}

/// The last component of a path.
pub fn file_name(path: &str) -> (r: Option<String>)
    ensures
        opt_view(r) == file_name_of(path@),
{
    let p = chars_of(path);
    match name_chars(&p) {
        None => None,
        Some(name) => Some(string_of(&name)),
    }
}

/// The extension of a path, without its dot.
pub fn extension(path: &str) -> (r: Option<String>)
    ensures
        opt_view(r) == extension_of(path@),
{
    let p = chars_of(path);
    match extension_chars(&p) {
        None => None,
        Some(e) => Some(string_of(&e)),
    }
}

/// Whether a path has an extension.
pub fn has_extension(path: &str) -> (r: bool)
    ensures
        r == extension_of(path@).is_some(),
{
    let p = chars_of(path);
    extension_chars(&p).is_some()
}

/// The file name of a path without its extension.
pub fn file_stem(path: &str) -> (r: Option<String>)
    ensures
        opt_view(r) == file_stem_of(path@),
{
    let p = chars_of(path);
    match name_chars(&p) {
        None => None,
        Some(name) => match dot_position(&name) {
            None => Some(string_of(&name)),
            Some(dot) => if dot == 0 {
                Some(string_of(&name))
            } else {
                let stem = slice_of(&name, 0, dot);
                Some(string_of(&stem))
            },
        },
    }
}

/// The directory that holds the last component of a path.
pub fn parent(path: &str) -> (r: Option<String>)
    ensures
        opt_view(r) == parent_of(path@),
{
    let p = chars_of(path);
    let end = trimmed_len(&p);
    if end == 0 {
        return None;
    }
    let start = component_start(&p, end);
    let ghost dir = p@.take(end as int).subrange(0, start as int);
    let mut n: usize = start;
    assert(p@.take(n as int) == dir);
    while n >= 2 && (p[n - 1] == '/' || p[n - 1] == '\\') && p[n - 2] != ':'
        invariant
            n <= start <= p.len(),
            directory_part(p@.take(n as int)) == directory_part(dir),
        decreases n,
    {
        assert(p@.take(n as int).drop_last() == p@.take(n - 1));
        n -= 1;
    }
    let d = slice_of(&p, 0, n);
    assert(d@ == p@.take(n as int));
    Some(string_of(&d))
}

/// The extension of a path in lowercase, empty when the path has none.
pub fn lowercase_extension(path: &str) -> (r: String)
    ensures
        r@ == lower_extension_of(path@),
{
    match extension(path) {
        Some(e) => to_lowercase(e.as_str()),
        None => String::new(),
    }
}

/// The last dot of a name stands where `last_dot` says, and no dot follows
/// it; a name for which it says -1 has no dot.
pub proof fn lemma_last_dot(name: Seq<char>)
    ensures
        -1 <= last_dot(name) < name.len(),
        last_dot(name) >= 0 ==> name[last_dot(name)] == '.',
        forall|i: int| last_dot(name) < i < name.len() ==> name[i] != '.',
    decreases name.len(),
{
    if name.len() > 0 && name.last() != '.' {
        lemma_last_dot(name.drop_last());
        assert forall|i: int| last_dot(name) < i < name.len() implies name[i] != '.' by {
            if i < name.len() - 1 {
                assert(name.drop_last()[i] == name[i]);
            }
        }
    }
}

/// The last component begins where `last_component_start` says: after a
/// separator or at the beginning, and no separator follows.
pub proof fn lemma_last_component_start(p: Seq<char>)
    ensures
        0 <= last_component_start(p) <= p.len(),
        last_component_start(p) > 0 ==> is_separator(p[last_component_start(p) - 1]),
        forall|i: int| last_component_start(p) <= i < p.len() ==> !is_separator(p[i]),
    decreases p.len(),
{
    if p.len() > 0 && !is_separator(p.last()) {
        lemma_last_component_start(p.drop_last());
        assert forall|i: int| last_component_start(p) <= i < p.len() implies !is_separator(
            p[i],
        ) by {
            if i < p.len() - 1 {
                assert(p.drop_last()[i] == p[i]);
            }
        }
    }
}

/// A file name is its stem, and where it has an extension, a dot and the
/// extension after it. The extension holds no dot.
pub proof fn lemma_name_is_stem_and_extension(p: Seq<char>)
    ensures
        match file_name_of(p) {
            Some(name) => match extension_of(p) {
                Some(ext) => {
                    &&& file_stem_of(p) is Some
                    &&& name == file_stem_of(p)->0 + seq!['.'] + ext
                    &&& file_stem_of(p)->0.len() > 0
                    &&& forall|i: int| 0 <= i < ext.len() ==> ext[i] != '.'
                },
                None => file_stem_of(p) == Some(name),
            },
            None => extension_of(p) is None && file_stem_of(p) is None,
        },
{
    match file_name_of(p) {
        Some(name) => {
            lemma_last_dot(name);
            let dot = last_dot(name);
            if dot > 0 {
                let ext = name.subrange(dot + 1, name.len() as int);
                assert(name =~= name.subrange(0, dot) + seq!['.'] + ext);
                assert forall|i: int| 0 <= i < ext.len() implies ext[i] != '.' by {
                    assert(ext[i] == name[dot + 1 + i]);
                }
            }
        },
        None => {},
    }
}

/// A file name holds no separator.
pub proof fn lemma_name_has_no_separator(p: Seq<char>)
    ensures
        file_name_of(p) matches Some(name) ==> forall|i: int|
            0 <= i < name.len() ==> !is_separator(name[i]),
{
    let t = without_trailing_filler(p);
    lemma_last_component_start(t);
    let start = last_component_start(t);
    let name = t.subrange(start, t.len() as int);
    assert forall|i: int| 0 <= i < name.len() implies !is_separator(name[i]) by {
        assert(name[i] == t[start + i]);
    }
}

/// A `.` component at the end of a path counts for nothing: with or without
/// it, the path has the same file name, extension, stem and parent.
pub proof fn lemma_final_dot_is_set_aside(p: Seq<char>, separator: char)
    requires
        is_separator(separator),
    ensures
        file_name_of(p.push(separator).push('.')) == file_name_of(p),
        extension_of(p.push(separator).push('.')) == extension_of(p),
        file_stem_of(p.push(separator).push('.')) == file_stem_of(p),
        parent_of(p.push(separator).push('.')) == parent_of(p),
{
    let q = p.push(separator);
    let r = q.push('.');
    assert(r.drop_last() == q);
    assert(q.drop_last() == p);
    assert(r[r.len() - 2] == separator);
    assert(without_trailing_filler(r) == without_trailing_filler(q));
    assert(without_trailing_filler(q) == without_trailing_filler(p));
}

} // verus!
