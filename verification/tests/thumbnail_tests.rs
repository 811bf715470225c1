use appimage_launcher::thumbnails::{
    checked_thumbnail_call, checked_thumbnail_calls, first_without_file_name, has_file_name,
    thumbnail_call, thumbnail_call_for, thumbnail_calls, thumbnailer_call, thumbnailer_dir,
};

fn strs(v: &[&str]) -> Vec<String> {
    v.iter().map(|s| s.to_string()).collect()
}

#[test]
fn thumbnail_call_for_an_appimage() {
    let c = thumbnail_call("/apps", "/icons", "Krita-5.AppImage");
    assert_eq!(c.program, "././thumbnailer.sh");
    assert_eq!(
        c.args,
        strs(&["/apps/Krita-5.AppImage", "/icons/Krita-5.png", "200x200", "/apps"])
    );
}

#[test]
fn thumbnail_stem_drops_only_last_extension() {
    let c = thumbnail_call("d", "i", "a.b.AppImage");
    assert_eq!(c.args[1], "i/a.b.png");
    let c = thumbnail_call("d", "i", ".hidden");
    assert_eq!(c.args[0], "d/.hidden");
    assert_eq!(c.args[1], "i/.hidden.png");
}

#[test]
fn thumbnail_call_uses_final_component() {
    let c = thumbnail_call("d", "i", "sub/x.AppImage");
    assert_eq!(c.args[0], "d/x.AppImage");
    assert_eq!(c.args[1], "i/x.png");
}

#[test]
fn no_thumbnail_call_without_file_name() {
    assert!(checked_thumbnail_call("d", "i", "").is_none());
    assert!(checked_thumbnail_call("d", "i", "..").is_none());
    assert!(checked_thumbnail_call("d", "i", "/").is_none());
    assert!(!has_file_name(""));
    assert!(has_file_name("a/b/"));
    assert_eq!(checked_thumbnail_call("d", "i", "x.AppImage").unwrap().args[1], "i/x.png");
}

#[test]
fn thumbnail_calls_need_file_names() {
    let model = strs(&["a.AppImage", "b.AppImage", "..", "c.AppImage"]);
    assert_eq!(first_without_file_name(&model), Some(2));
    assert!(checked_thumbnail_calls("d", "i", &model).is_none());
    let good = strs(&["a.AppImage", "b.AppImage"]);
    assert_eq!(first_without_file_name(&good), None);
    let calls = thumbnail_calls("d", "i", &good);
    assert_eq!(calls.len(), 2);
    assert_eq!(calls[1].args[1], "i/b.png");
    assert_eq!(checked_thumbnail_calls("d", "i", &good).unwrap()[0].args[0], "d/a.AppImage");
}

#[test]
fn thumbnail_call_from_name_and_stem() {
    let c = thumbnail_call_for("/apps", "/icons", "Gimp.AppImage", "Gimp");
    assert_eq!(c.program, "././thumbnailer.sh");
    assert_eq!(c.args, strs(&["/apps/Gimp.AppImage", "/icons/Gimp.png", "200x200", "/apps"]));
}

#[test]
fn thumbnailer_dir_from_args() {
    assert_eq!(thumbnailer_dir(&strs(&["thumbnailer"])), "./");
    assert_eq!(thumbnailer_dir(&strs(&["thumbnailer", "/apps", "x"])), "/apps");
}

#[test]
fn thumbnailer_output_drops_first_char() {
    let c = thumbnailer_call("./foo.AppImage");
    assert_eq!(c.program, "./thumbnailer.sh");
    assert_eq!(c.args, strs(&["./foo.AppImage", "./.icons/foo.AppImage.png", "200x200"]));
}
