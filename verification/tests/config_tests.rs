use appimage_launcher::config::{
    appimages_path_or_default, config_dir, icons_dir_or_default, trim_trailing_slash, Config,
};

fn cfg(a: &str, i: &str) -> Config {
    Config { appimages_path: a.to_string(), icons_dir: i.to_string() }
}

#[test]
fn config_dir_appends_suffix_to_home() {
    assert_eq!(config_dir(Some("/home/ann".to_string())), "/home/ann/.config/appimage-launcher");
}

#[test]
fn config_dir_keeps_trailing_slash_of_home() {
    assert_eq!(config_dir(Some("/root/".to_string())), "/root//.config/appimage-launcher");
}

#[test]
fn config_dir_without_home() {
    assert_eq!(config_dir(None), "/home//.config/appimage-launcher");
}

#[test]
fn config_dir_ends_with_suffix_for_any_home() {
    for home in ["", "x", "/a/b/c", "/ü/"] {
        let d = config_dir(Some(home.to_string()));
        assert!(d.starts_with(home));
        assert!(d.ends_with("/.config/appimage-launcher"));
    }
}

#[test]
fn trim_removes_one_trailing_slash() {
    assert_eq!(trim_trailing_slash("/apps/".to_string()), "/apps");
    assert_eq!(trim_trailing_slash("/apps//".to_string()), "/apps/");
    assert_eq!(trim_trailing_slash("/apps".to_string()), "/apps");
    assert_eq!(trim_trailing_slash("".to_string()), "");
    assert_eq!(trim_trailing_slash("/".to_string()), "");
    assert_eq!(trim_trailing_slash("é/".to_string()), "é");
}

#[test]
fn defaults_when_nothing_was_read() {
    assert_eq!(appimages_path_or_default(None), "./");
    assert_eq!(icons_dir_or_default(None), "./.icons");
}

#[test]
fn loaded_values_are_kept() {
    assert_eq!(appimages_path_or_default(Some(cfg("/a/", "/i"))), "/a/");
    assert_eq!(icons_dir_or_default(Some(cfg("/a/", "/i"))), "/i");
}
