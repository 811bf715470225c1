//! The parts of a path that the launcher reads: its file name, the stem of
//! that name and its extension.

use vstd::prelude::*;

verus! {

/// The final component of a path, as `Path::file_name` gives it (`None`
/// where the path has no final normal component, as `""`, `"/"` or `"a/.."`).
pub uninterp spec fn std_file_name(p: Seq<char>) -> Option<Seq<char>>;

/// The index of the last `c` in `s`, or `-1` when `s` holds none.
pub open spec fn last_index_of(s: Seq<char>, c: char) -> int
    decreases s.len(),
{
    if s.len() == 0 {
        -1
    } else if s.last() == c {
        s.len() - 1
    } else {
        last_index_of(s.drop_last(), c)
    }
}

/// The index of the last `'.'` in `s`, or `-1` when `s` holds none.
pub open spec fn last_dot(s: Seq<char>) -> int {
    last_index_of(s, '.')
}

/// What follows the last `'/'` of a path (the whole path where it has none).
pub open spec fn final_segment(p: Seq<char>) -> Seq<char> {
    p.subrange(last_index_of(p, '/') + 1, p.len() as int)
}

/// A path whose file name can be read off its text on every target: it holds
/// no `'\\'` and no `':'` (so no Windows prefix or other separator), it does
/// not start with `"//"`, and what follows its last `'/'` is neither empty,
/// nor `"."`, nor `".."`.
pub open spec fn is_plain_path(p: Seq<char>) -> bool {
    let last = final_segment(p);
    &&& !p.contains('\\')
    &&& !p.contains(':')
    &&& !(p.len() >= 2 && p[0] == '/' && p[1] == '/')
    &&& last.len() > 0
    &&& last != seq!['.']
    &&& last != seq!['.', '.']
}

/// The file name of a path: for a plain path, what follows its last `'/'`;
/// otherwise the final component as `Path::file_name` gives it.
pub open spec fn path_file_name(p: Seq<char>) -> Option<Seq<char>> {
    if is_plain_path(p) {
        Some(final_segment(p))
    } else {
        std_file_name(p)
    }
}

/// A file name has an extension when it holds a `'.'` other than a leading one.
pub open spec fn name_has_extension(name: Seq<char>) -> bool {
    last_dot(name) > 0
}

/// The extension of a file name: what follows its last `'.'`, unless the name
/// has no `'.'` or its only `'.'` leads it.
pub open spec fn name_extension(name: Seq<char>) -> Option<Seq<char>> {
    if name_has_extension(name) {
        Some(name.subrange(last_dot(name) + 1, name.len() as int))
    } else {
        None
    }
}

/// The stem of a file name: what precedes its last `'.'`, or the whole name
/// where it has no extension.
pub open spec fn name_stem(name: Seq<char>) -> Seq<char> {
    if name_has_extension(name) {
        name.subrange(0, last_dot(name))
    } else {
        name
    }
}

/// The extension of a path: that of its file name, if it has one.
pub open spec fn path_extension(p: Seq<char>) -> Option<Seq<char>> {
    match path_file_name(p) {
        Some(name) => name_extension(name),
        None => None,
    }
}

/// The stem of a path: that of its file name, if it has one.
pub open spec fn path_file_stem(p: Seq<char>) -> Option<Seq<char>> {
    match path_file_name(p) {
        Some(name) => Some(name_stem(name)),
        None => None,
    }
}

/// Calls `Path::file_name` on `p`. Its documentation makes the result the
/// path's final component, where repeated separators and `"."` components
/// are ignored, and `None` where that component is `".."` or missing. For a
/// plain path (see `is_plain_path`) this is what follows its last `'/'`; for
/// any other path the result is named by `std_file_name`.
#[verifier::external_body]
pub(crate) fn file_name(p: &str) -> (r: Option<String>)
    ensures
        r.deep_view() == path_file_name(p@),
        !is_plain_path(p@) ==> r.deep_view() == std_file_name(p@),
{
    match std::path::Path::new(p).file_name() {
        Some(name) => Some(name.to_string_lossy().into_owned()),
        None => None,
    }
}

/// Calls `Path::extension` on `p`. As its documentation says, the result is
/// `None` without a file name, or without a `'.'` in it other than a leading
/// one, and otherwise the part of the file name after its last `'.'`.
#[verifier::external_body]
pub(crate) fn extension(p: &str) -> (r: Option<String>)
    ensures
        r.deep_view() == path_extension(p@),
{
    match std::path::Path::new(p).extension() {
        Some(ext) => Some(ext.to_string_lossy().into_owned()),
        None => None,
    }
}

/// Calls `Path::file_stem` on `p`. As its documentation says, the result is
/// `None` without a file name, the whole file name where it holds no `'.'`
/// other than a leading one, and otherwise the part before its last `'.'`.
#[verifier::external_body]
pub(crate) fn file_stem(p: &str) -> (r: Option<String>)
    ensures
        r.deep_view() == path_file_stem(p@),
{
    match std::path::Path::new(p).file_stem() {
        Some(stem) => Some(stem.to_string_lossy().into_owned()),
        None => None,
    }
}

/// `last_index_of` lies within the string, points at `c` where it is not
/// `-1`, and no `c` follows it.
pub proof fn lemma_last_index_bounds(s: Seq<char>, c: char)
    ensures
        -1 <= last_index_of(s, c) < s.len(),
        last_index_of(s, c) >= 0 ==> s[last_index_of(s, c)] == c,
        forall|i: int| last_index_of(s, c) < i < s.len() ==> s[i] != c,
    decreases s.len(),
{
    if s.len() > 0 && s.last() != c {
        lemma_last_index_bounds(s.drop_last(), c);
        assert forall|i: int| last_index_of(s, c) < i < s.len() implies s[i] != c by {
            if i < s.len() - 1 {
                assert(s[i] == s.drop_last()[i]);
            }
        }
    }
}

/// Below a directory, a name holding no `'/'` is the last segment: the last
/// `'/'` of `dir + "/" + name` is the one joining them, and `name` alone
/// holds none.
pub proof fn lemma_joined_final_segment(dir: Seq<char>, name: Seq<char>)
    requires
        !name.contains('/'),
    ensures
        last_index_of(name, '/') == -1,
        final_segment(name) == name,
        last_index_of(dir + seq!['/'] + name, '/') == dir.len(),
        final_segment(dir + seq!['/'] + name) == name,
    decreases name.len(),
{
    let p = dir + seq!['/'] + name;
    if name.len() == 0 {
        assert(p.last() == '/');
    } else {
        assert(name.last() == name[name.len() - 1]);
        assert(!(name.last() == '/'));
        lemma_joined_final_segment(dir, name.drop_last());
        assert(p.drop_last() =~= dir + seq!['/'] + name.drop_last());
        assert(p.last() == name.last());
        assert(name.drop_last().contains('/') ==> name.contains('/')) by {
            if name.drop_last().contains('/') {
                let i = choose|i: int| 0 <= i < name.drop_last().len() && name.drop_last()[i] == '/';
                assert(name[i] == '/');
            }
        }
    }
    assert(name.subrange(0, name.len() as int) =~= name);
    assert(p.subrange(dir.len() as int + 1, p.len() as int) =~= name);
}

/// A path has a stem exactly when it has a file name; where it has an
/// extension, its file name is the stem, a `'.'` and the extension, and
/// otherwise the stem is the whole file name.
pub proof fn lemma_stem_and_extension(p: Seq<char>)
    ensures
        path_file_stem(p) is Some <==> path_file_name(p) is Some,
        path_extension(p) is Some ==> path_file_name(p) is Some,
        path_extension(p) matches Some(ext) ==> path_file_name(p)->0 == path_file_stem(p)->0
            + seq!['.'] + ext,
        path_file_name(p) is Some && path_extension(p) is None ==> path_file_stem(p)
            == path_file_name(p),
        path_extension(p) matches Some(ext) ==> !ext.contains('.'),
{
    if let Some(name) = path_file_name(p) {
        lemma_last_index_bounds(name, '.');
        if name_has_extension(name) {
            let d: int = last_dot(name);
            let ext = name.subrange(d + 1, name.len() as int);
            assert(name =~= name.subrange(0, d) + seq!['.'] + ext);
            assert forall|i: int| 0 <= i < ext.len() implies ext[i] != '.' by {
                assert(ext[i] == name[d + 1 + i]);
            }
        }
    }
}

} // verus!
