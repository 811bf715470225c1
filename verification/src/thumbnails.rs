//! The thumbnail jobs: for each AppImage, the call of the thumbnail script
//! that renders its icon.

use vstd::prelude::*;
use crate::paths::{file_name, file_stem, name_stem, path_file_name};
use crate::text::{concat2, concat3};

verus! {

/// A call of an outside program with its arguments.
pub struct ScriptCall {
    /// The program to run.
    pub program: String,
    /// Its arguments, in order.
    pub args: Vec<String>,
}

/// The launcher's thumbnail job for `appimage` (an entry of the list, read
/// as a path): the script `././thumbnailer.sh` with the AppImage's path in
/// `appimages_path`, the icon's path in `icons_dir` (the AppImage's file
/// stem with `.png`), the size `200x200`, and `appimages_path` itself.
pub open spec fn is_thumbnail_call(
    call: ScriptCall,
    appimages_path: Seq<char>,
    icons_dir: Seq<char>,
    appimage: Seq<char>,
) -> bool {
    &&& path_file_name(appimage) matches Some(name)
    &&& call.program@ == "././thumbnailer.sh"@
    &&& call.args.deep_view() == seq![
        appimages_path + "/"@ + name,
        icons_dir + "/"@ + name_stem(name) + ".png"@,
        "200x200"@,
        appimages_path,
    ]
}

fn string_vec4(a: String, b: String, c: String, d: String) -> (r: Vec<String>)
    ensures
        r.deep_view() == seq![a@, b@, c@, d@],
{
    let mut r: Vec<String> = Vec::new();
    r.push(a);
    r.push(b);
    r.push(c);
    r.push(d);
    assert(r.deep_view() =~= seq![a@, b@, c@, d@]);
    r
}

/// Whether `appimage`, read as a path, has a file name (and so a thumbnail job).
pub fn has_file_name(appimage: &str) -> (b: bool)
    ensures
        b == (path_file_name(appimage@) is Some),
{
    file_name(appimage).is_some()
}

/// The thumbnail job for an AppImage with file name `name` and file stem
/// `stem`: the script `././thumbnailer.sh` with the AppImage's path in
/// `appimages_path`, the icon's path in `icons_dir`, the size and
/// `appimages_path` itself.
pub fn thumbnail_call_for(appimages_path: &str, icons_dir: &str, name: &str, stem: &str) -> (r:
    ScriptCall)
    ensures
        r.program@ == "././thumbnailer.sh"@,
        r.args.deep_view() == seq![
            appimages_path@ + "/"@ + name@,
            icons_dir@ + "/"@ + stem@ + ".png"@,
            "200x200"@,
            appimages_path@,
        ],
{
    let out_base = concat3(icons_dir, "/", stem);
    let thumbnail_out = concat2(out_base.as_str(), ".png");
    let appimage_file = concat3(appimages_path, "/", name);
    let args = string_vec4(
        appimage_file,
        thumbnail_out,
        String::from_str("200x200"),
        String::from_str(appimages_path),
    );
    ScriptCall { program: String::from_str("././thumbnailer.sh"), args }
}

/// The thumbnail job for one AppImage of the list, which must have a file
/// name (without one, making thumbnails fails).
pub fn thumbnail_call(appimages_path: &str, icons_dir: &str, appimage: &str) -> (r: ScriptCall)
    requires
        path_file_name(appimage@) is Some,
    ensures
        is_thumbnail_call(r, appimages_path@, icons_dir@, appimage@),
{
    let stem = match file_stem(appimage) {
        Some(s) => s,
        None => String::new(),
    };
    let name = match file_name(appimage) {
        Some(n) => n,
        None => String::new(),
    };
    thumbnail_call_for(appimages_path, icons_dir, name.as_str(), stem.as_str())
}

/// The thumbnail job for one AppImage of the list, or `None` where the
/// entry, read as a path, has no file name.
pub fn checked_thumbnail_call(appimages_path: &str, icons_dir: &str, appimage: &str) -> (r:
    Option<ScriptCall>)
    ensures
        r is None <==> path_file_name(appimage@) is None,
        r matches Some(call) ==> is_thumbnail_call(call, appimages_path@, icons_dir@, appimage@),
{
    if has_file_name(appimage) {
        Some(thumbnail_call(appimages_path, icons_dir, appimage))
    } else {
        None
    }
}

/// The thumbnail jobs for the AppImages of `model`, in order; each entry
/// must have a file name.
pub fn thumbnail_calls(appimages_path: &str, icons_dir: &str, model: &Vec<String>) -> (r: Vec<
    ScriptCall,
>)
    requires
        forall|k: int| 0 <= k < model@.len() ==> path_file_name(#[trigger] model@[k]@) is Some,
    ensures
        r.len() == model.len(),
        forall|i: int|
            0 <= i < r.len() ==> is_thumbnail_call(
                #[trigger] r@[i],
                appimages_path@,
                icons_dir@,
                model@[i]@,
            ),
{
    let mut calls: Vec<ScriptCall> = Vec::new();
    let mut i: usize = 0;
    while i < model.len()
        invariant
            i <= model.len(),
            calls.len() == i,
            forall|k: int| 0 <= k < model@.len() ==> path_file_name(#[trigger] model@[k]@) is Some,
            forall|j: int|
                0 <= j < i ==> is_thumbnail_call(
                    #[trigger] calls@[j],
                    appimages_path@,
                    icons_dir@,
                    model@[j]@,
                ),
        decreases model.len() - i,
    {
        assert(path_file_name(model@[i as int]@) is Some);
        calls.push(thumbnail_call(appimages_path, icons_dir, model[i].as_str()));
        i += 1;
    }
    calls
}

/// The index of the first entry of `model` without a file name, if any.
pub fn first_without_file_name(model: &Vec<String>) -> (r: Option<usize>)
    ensures
        r is None <==> forall|k: int|
            0 <= k < model@.len() ==> path_file_name(#[trigger] model@[k]@) is Some,
        r matches Some(k) ==> k < model.len() && path_file_name(model@[k as int]@) is None
            && forall|j: int| 0 <= j < k ==> path_file_name(#[trigger] model@[j]@) is Some,
{
    let mut i: usize = 0;
    while i < model.len()
        invariant
            i <= model.len(),
            forall|j: int| 0 <= j < i ==> path_file_name(#[trigger] model@[j]@) is Some,
        decreases model.len() - i,
    {
        if !has_file_name(model[i].as_str()) {
            return Some(i);
        }
        i += 1;
    }
    None
}

/// The thumbnail jobs for all AppImages of `model`, or `None` where one of
/// its entries has no file name.
pub fn checked_thumbnail_calls(appimages_path: &str, icons_dir: &str, model: &Vec<String>) -> (r:
    Option<Vec<ScriptCall>>)
    ensures
        r is None <==> exists|k: int|
            0 <= k < model@.len() && path_file_name(#[trigger] model@[k]@) is None,
        r matches Some(calls) ==> calls.len() == model.len() && forall|i: int|
            0 <= i < calls.len() ==> is_thumbnail_call(
                #[trigger] calls@[i],
                appimages_path@,
                icons_dir@,
                model@[i]@,
            ),
{
    match first_without_file_name(model) {
        Some(k) => {
            assert(path_file_name(model@[k as int]@) is None);
            None
        },
        None => Some(thumbnail_calls(appimages_path, icons_dir, model)),
    }
}

/// The directory the thumbnail tool scans: its first argument after the
/// program name, or `"./"`.
pub fn thumbnailer_dir(args: &Vec<String>) -> (r: String)
    ensures
        r@ == (if args@.len() > 1 {
            args@[1]@
        } else {
            "./"@
        }),
{
    if args.len() > 1 {
        args[1].clone()
    } else {
        String::from_str("./")
    }
}

/// The icon path the thumbnail tool writes for an AppImage path: the path
/// without its first char, between `"./.icons"` and `".png"`.
pub open spec fn spec_thumbnailer_output(appimage: Seq<char>) -> Seq<char> {
    "./.icons"@ + appimage.drop_first() + ".png"@
}

/// The thumbnail tool's call of `./thumbnailer.sh` for one AppImage path.
pub fn thumbnailer_call(appimage: &str) -> (r: ScriptCall)
    requires
        appimage@.len() > 0,
    ensures
        r.program@ == "./thumbnailer.sh"@,
        r.args.deep_view() == seq![appimage@, spec_thumbnailer_output(appimage@), "200x200"@],
{
    let n: usize = appimage.unicode_len();
    let rest = appimage.substring_char(1, n);
    let output = concat3("./.icons", rest, ".png");
    let mut args: Vec<String> = Vec::new();
    args.push(String::from_str(appimage));
    args.push(output);
    args.push(String::from_str("200x200"));
    assert(args.deep_view() =~= seq![appimage@, spec_thumbnailer_output(appimage@), "200x200"@]);
    ScriptCall { program: String::from_str("./thumbnailer.sh"), args }
}

/// A thumbnail job exists exactly for the entries with a file name, and its
/// icon is named after the stem of the AppImage it is made from: the icon
/// path is the thumbnail directory, `"/"`, a prefix of the AppImage's file
/// name, and `".png"`.
pub proof fn lemma_thumbnail_icon_name(
    call: ScriptCall,
    appimages_path: Seq<char>,
    icons_dir: Seq<char>,
    appimage: Seq<char>,
)
    requires
        is_thumbnail_call(call, appimages_path, icons_dir, appimage),
    ensures
        exists|stem: Seq<char>|
            #![trigger stem.is_prefix_of(path_file_name(appimage)->0)]
            stem.is_prefix_of(path_file_name(appimage)->0) && call.args.deep_view()[1] == icons_dir
                + "/"@ + stem + ".png"@,
        call.args.deep_view()[0] == appimages_path + "/"@ + path_file_name(appimage)->0,
{
    let name = path_file_name(appimage)->0;
    let stem = name_stem(name);
    crate::paths::lemma_stem_and_extension(appimage);
    assert(stem.is_prefix_of(name)) by {
        if crate::paths::name_has_extension(name) {
            crate::paths::lemma_last_index_bounds(name, '.');
            assert(stem =~= name.subrange(0, stem.len() as int));
        } else {
            assert(name =~= name.subrange(0, name.len() as int));
        }
    }
    assert(call.args.deep_view()[1] == icons_dir + "/"@ + stem + ".png"@);
}

} // verus!
