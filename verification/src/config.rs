//! The launcher's settings: where its configuration file lives, the paths it
//! holds, and the values used where no configuration could be read.

use vstd::prelude::*;
use crate::text::{concat2, ends_with_slash};

verus! {

/// The two directories the launcher works with.
pub struct Config {
    /// The directory that holds the AppImages.
    pub appimages_path: String,
    /// The directory that holds their thumbnails.
    pub icons_dir: String,
}

/// The configuration file's path below the home directory, as the user's
/// home (or `"/home/"` where it is unknown) followed by
/// `"/.config/appimage-launcher"`. A trailing `'/'` of the home is kept.
pub open spec fn spec_config_dir(home_dir: Option<Seq<char>>) -> Seq<char> {
    let home = match home_dir {
        Some(h) => h,
        None => "/home/"@,
    };
    home + "/.config/appimage-launcher"@
}

/// The path of the configuration file, given the home directory if one is known.
pub fn config_dir(home_dir: Option<String>) -> (r: String)
    ensures
        r@ == spec_config_dir(home_dir.deep_view()),
{
    let home = match home_dir {
        Some(h) => h,
        None => String::from_str("/home/"),
    };
    concat2(home.as_str(), "/.config/appimage-launcher")
}

/// `s` without its last char where that char is `'/'`, else `s` itself.
pub open spec fn spec_trim_trailing_slash(s: Seq<char>) -> Seq<char> {
    if s.len() > 0 && s.last() == '/' {
        s.drop_last()
    } else {
        s
    }
}

/// Removes one trailing `'/'` from a configured directory, if there is one.
pub fn trim_trailing_slash(s: String) -> (r: String)
    ensures
        r@ == spec_trim_trailing_slash(s@),
{
    if ends_with_slash(s.as_str()) {
        let n: usize = s.as_str().unicode_len();
        String::from_str(s.as_str().substring_char(0, n - 1))
    } else {
        s
    }
}

/// The AppImage directory of a configuration that was read, or `"./"`.
pub fn appimages_path_or_default(loaded: Option<Config>) -> (r: String)
    ensures
        r@ == (match loaded {
            Some(c) => c.appimages_path@,
            None => "./"@,
        }),
{
    match loaded {
        Some(c) => c.appimages_path,
        None => String::from_str("./"),
    }
}

/// The thumbnail directory of a configuration that was read, or `"./.icons"`.
pub fn icons_dir_or_default(loaded: Option<Config>) -> (r: String)
    ensures
        r@ == (match loaded {
            Some(c) => c.icons_dir@,
            None => "./.icons"@,
        }),
{
    match loaded {
        Some(c) => c.icons_dir,
        None => String::from_str("./.icons"),
    }
}

/// The configuration file always lies in `.config/appimage-launcher` below
/// the home directory, whatever that directory is.
pub proof fn lemma_config_dir_suffix(home_dir: Option<Seq<char>>)
    ensures
        "/.config/appimage-launcher"@.is_suffix_of(spec_config_dir(home_dir)),
        home_dir matches Some(h) ==> h.is_prefix_of(spec_config_dir(home_dir)),
{
    let r = spec_config_dir(home_dir);
    let home = match home_dir {
        Some(h) => h,
        None => "/home/"@,
    };
    assert(r.subrange(home.len() as int, r.len() as int) =~= "/.config/appimage-launcher"@);
    assert(r.subrange(0, home.len() as int) =~= home);
}

/// Trimming removes at most one char, and only a trailing `'/'`: the input
/// is the result, followed by `"/"` where something was removed.
pub proof fn lemma_trim_trailing_slash(s: Seq<char>)
    ensures
        spec_trim_trailing_slash(s) == s || spec_trim_trailing_slash(s) + seq!['/'] == s,
        spec_trim_trailing_slash(s).len() + 1 >= s.len(),
        !(s.len() > 0 && s.last() == '/') ==> spec_trim_trailing_slash(s) == s,
{
    if s.len() > 0 && s.last() == '/' {
        assert(s.drop_last() + seq!['/'] =~= s);
    }
}

} // verus!
