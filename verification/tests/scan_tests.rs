use appimage_launcher::scan::{
    appimage_names, appimage_paths, entry_extension, entry_label, is_appimage, DirEntryInfo,
};

fn entry(dir: &str, name: &str, is_file: bool) -> DirEntryInfo {
    DirEntryInfo { path: format!("{}/{}", dir, name), file_name: name.to_string(), is_file }
}

#[test]
fn labels_of_entries() {
    assert_eq!(entry_extension(&entry("/d", "a.AppImage", true)), "AppImage");
    assert_eq!(entry_extension(&entry("/d", "a.tar.gz", true)), "gz");
    assert_eq!(entry_extension(&entry("/d", "noext", true)), "others");
    assert_eq!(entry_extension(&entry("/d", ".AppImage", true)), "others");
    assert_eq!(entry_extension(&entry("/d", "a.", true)), "");
    assert_eq!(entry_extension(&entry("/d", "a.AppImage", false)), "");
}

#[test]
fn which_entries_are_appimages() {
    assert!(is_appimage(&entry("/d", "x.AppImage", true)));
    assert!(is_appimage(&entry("/d", "x.appimage", true)));
    assert!(!is_appimage(&entry("/d", "x.APPIMAGE", true)));
    assert!(!is_appimage(&entry("/d", "x.AppImage", false)));
    assert!(!is_appimage(&entry("/d", ".AppImage", true)));
    assert!(!is_appimage(&entry("/d", "AppImage", true)));
    assert!(!is_appimage(&entry("/d", "x.AppImage.bak", true)));
    assert!(is_appimage(&entry("/d", "x.bak.AppImage", true)));
}

#[test]
fn names_keep_order_and_skip_others() {
    let entries = vec![
        entry("./", "b.AppImage", true),
        entry("./", "notes.txt", true),
        entry("./", "dir.AppImage", false),
        entry("./", "a.appimage", true),
    ];
    assert_eq!(appimage_names(&entries), vec!["b.AppImage".to_string(), "a.appimage".to_string()]);
    assert_eq!(
        appimage_paths(&entries),
        vec![".//b.AppImage".to_string(), ".//a.appimage".to_string()]
    );
}

#[test]
fn empty_directory_lists_nothing() {
    assert!(appimage_names(&Vec::new()).is_empty());
}

#[test]
fn labels_from_extension() {
    assert_eq!(entry_label(true, Some("AppImage".to_string())), "AppImage");
    assert_eq!(entry_label(true, None), "others");
    assert_eq!(entry_label(false, Some("AppImage".to_string())), "");
    assert_eq!(entry_label(false, None), "");
}
