//! Which entries of the AppImage directory the launcher lists.

use vstd::prelude::*;
use crate::paths::{extension, path_extension};
use crate::text::str_eq;

verus! {

/// What the scan reads of one directory entry.
pub struct DirEntryInfo {
    /// The entry's full path (the directory joined with its file name).
    pub path: String,
    /// The entry's file name.
    pub file_name: String,
    /// Whether the entry is a regular file.
    pub is_file: bool,
}

/// The label the scan gives an entry: for a file, the extension of its path
/// or `"others"` where it has none; for anything else, the empty string.
pub open spec fn spec_entry_extension(e: DirEntryInfo) -> Seq<char> {
    if e.is_file {
        match path_extension(e.path@) {
            Some(ext) => ext,
            None => "others"@,
        }
    } else {
        Seq::empty()
    }
}

/// An entry is an AppImage when its label is `"appimage"` or `"AppImage"`.
pub open spec fn spec_is_appimage(e: DirEntryInfo) -> bool {
    spec_entry_extension(e) == "appimage"@ || spec_entry_extension(e) == "AppImage"@
}

/// The file names of the AppImages among `entries`, in their order.
pub open spec fn spec_appimage_names(entries: Seq<DirEntryInfo>) -> Seq<Seq<char>> {
    entries.filter_map(
        |e: DirEntryInfo|
            if spec_is_appimage(e) {
                Some(e.file_name@)
            } else {
                None
            },
    )
}

/// The full paths of the AppImages among `entries`, in their order.
pub open spec fn spec_appimage_paths(entries: Seq<DirEntryInfo>) -> Seq<Seq<char>> {
    entries.filter_map(
        |e: DirEntryInfo|
            if spec_is_appimage(e) {
                Some(e.path@)
            } else {
                None
            },
    )
}

/// The label of an entry from whether it is a file and the extension of its
/// path: the extension, `"others"` for a file without one, and the empty
/// string for anything that is not a file.
pub fn entry_label(is_file: bool, ext: Option<String>) -> (r: String)
    ensures
        r@ == (if is_file {
            match ext.deep_view() {
                Some(x) => x,
                None => "others"@,
            }
        } else {
            Seq::<char>::empty()
        }),
{
    if is_file {
        match ext {
            Some(x) => x,
            None => String::from_str("others"),
        }
    } else {
        String::new()
    }
}

/// The label of an entry, as `spec_entry_extension` defines it.
pub fn entry_extension(e: &DirEntryInfo) -> (r: String)
    ensures
        r@ == spec_entry_extension(*e),
{
    if e.is_file {
        entry_label(true, extension(e.path.as_str()))
    } else {
        entry_label(false, None)
    }
}

/// Whether an entry is an AppImage.
pub fn is_appimage(e: &DirEntryInfo) -> (r: bool)
    ensures
        r == spec_is_appimage(*e),
{
    let ext = entry_extension(e);
    str_eq(ext.as_str(), "appimage") || str_eq(ext.as_str(), "AppImage")
}

/// The file names of the AppImages among `entries`, in their order.
pub fn appimage_names(entries: &Vec<DirEntryInfo>) -> (r: Vec<String>)
    ensures
        r.deep_view() == spec_appimage_names(entries@),
{
    let mut r: Vec<String> = Vec::new();
    let mut i: usize = 0;
    while i < entries.len()
        invariant
            i <= entries.len(),
            r.deep_view() == spec_appimage_names(entries@.take(i as int)),
        decreases entries.len() - i,
    {
        let e = &entries[i];
        assert(entries@.take(i + 1).drop_last() =~= entries@.take(i as int));
        if is_appimage(e) {
            r.push(e.file_name.clone());
        }
        assert(r.deep_view() =~= spec_appimage_names(entries@.take(i + 1)));
        i += 1;
    }
    assert(entries@.take(entries.len() as int) =~= entries@);
    r
}

/// The full paths of the AppImages among `entries`, in their order.
pub fn appimage_paths(entries: &Vec<DirEntryInfo>) -> (r: Vec<String>)
    ensures
        r.deep_view() == spec_appimage_paths(entries@),
{
    let mut r: Vec<String> = Vec::new();
    let mut i: usize = 0;
    while i < entries.len()
        invariant
            i <= entries.len(),
            r.deep_view() == spec_appimage_paths(entries@.take(i as int)),
        decreases entries.len() - i,
    {
        let e = &entries[i];
        assert(entries@.take(i + 1).drop_last() =~= entries@.take(i as int));
        if is_appimage(e) {
            r.push(e.path.clone());
        }
        assert(r.deep_view() =~= spec_appimage_paths(entries@.take(i + 1)));
        i += 1;
    }
    assert(entries@.take(entries.len() as int) =~= entries@);
    r
}

/// An entry is listed exactly when it is a file whose path has the extension
/// `"appimage"` or `"AppImage"`: the `"others"` label never matches.
pub proof fn lemma_is_appimage(e: DirEntryInfo)
    ensures
        spec_is_appimage(e) <==> e.is_file && (path_extension(e.path@) == Some("appimage"@)
            || path_extension(e.path@) == Some("AppImage"@)),
{
    reveal_strlit("others");
    reveal_strlit("appimage");
    reveal_strlit("AppImage");
    assert("others"@ != "appimage"@ && "others"@ != "AppImage"@) by {
        assert("others"@[0] != "appimage"@[0]);
        assert("others"@[0] != "AppImage"@[0]);
    }
    assert(Seq::<char>::empty() != "appimage"@ && Seq::<char>::empty() != "AppImage"@) by {
        assert("appimage"@.len() > 0 && "AppImage"@.len() > 0);
    }
}


/// Scanning one more entry lists it exactly when it is a regular file whose
/// path has the extension `"appimage"` or `"AppImage"`, whatever came
/// before it: such a file's name and path are added at the end, and any
/// other entry (a directory in particular) leaves both lists as they were.
/// An empty directory lists nothing.
pub proof fn lemma_scan_one_more(entries: Seq<DirEntryInfo>, e: DirEntryInfo)
    ensures
        spec_appimage_names(Seq::<DirEntryInfo>::empty()) == Seq::<Seq<char>>::empty(),
        spec_appimage_paths(Seq::<DirEntryInfo>::empty()) == Seq::<Seq<char>>::empty(),
        e.is_file && (path_extension(e.path@) == Some("appimage"@) || path_extension(e.path@)
            == Some("AppImage"@)) ==> spec_appimage_names(entries.push(e)) == spec_appimage_names(
            entries,
        ).push(e.file_name@) && spec_appimage_paths(entries.push(e)) == spec_appimage_paths(
            entries,
        ).push(e.path@),
        !(e.is_file && (path_extension(e.path@) == Some("appimage"@) || path_extension(e.path@)
            == Some("AppImage"@))) ==> spec_appimage_names(entries.push(e)) == spec_appimage_names(
            entries,
        ) && spec_appimage_paths(entries.push(e)) == spec_appimage_paths(entries),
        !e.is_file ==> spec_appimage_names(entries.push(e)) == spec_appimage_names(entries),
{
    lemma_is_appimage(e);
    assert(entries.push(e).drop_last() =~= entries);
    assert(entries.push(e).last() == e);
    assert(spec_appimage_names(entries).push(e.file_name@) =~= spec_appimage_names(entries)
        + seq![e.file_name@]);
    assert(spec_appimage_paths(entries).push(e.path@) =~= spec_appimage_paths(entries)
        + seq![e.path@]);
}

} // verus!
