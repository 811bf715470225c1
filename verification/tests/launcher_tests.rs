use appimage_launcher::config::Config;
use appimage_launcher::launcher::{
    filter_is_blank, filter_items, icon_path, icon_path_for, Action, Event, Key, Launcher,
    LauncherError,
};
use appimage_launcher::text::starts_with;
use appimage_launcher::thumbnails::thumbnail_call;

fn strs(v: &[&str]) -> Vec<String> {
    v.iter().map(|s| s.to_string()).collect()
}

fn settings() -> Config {
    Config { appimages_path: "/apps".to_string(), icons_dir: "/icons".to_string() }
}

fn launcher() -> Launcher {
    Launcher::new(strs(&["Krita.AppImage", "kdenlive.AppImage", "Firefox.AppImage"]))
}

#[test]
fn filter_is_case_insensitive_prefix() {
    let model = strs(&["Krita.AppImage", "kdenlive.AppImage", "Firefox.AppImage"]);
    assert_eq!(filter_items(&model, "K"), strs(&["Krita.AppImage", "kdenlive.AppImage"]));
    assert_eq!(filter_items(&model, "kr"), strs(&["Krita.AppImage"]));
    assert_eq!(filter_items(&model, "rita"), Vec::<String>::new());
    assert_eq!(filter_items(&model, ""), model);
}

#[test]
fn filter_uses_unicode_lowercase() {
    let model = strs(&["Ärger.AppImage", "arger.AppImage"]);
    assert_eq!(filter_items(&model, "är"), strs(&["Ärger.AppImage"]));
}

#[test]
fn starts_with_cases() {
    assert!(starts_with("abc", ""));
    assert!(starts_with("abc", "ab"));
    assert!(!starts_with("ab", "abc"));
    assert!(!starts_with("abc", "b"));
}

#[test]
fn icon_path_from_selected_item() {
    assert_eq!(icon_path(&settings(), "Krita.AppImage"), Some("/icons/Krita.png".to_string()));
    assert_eq!(icon_path(&settings(), ""), Some("/icons/apps.png".to_string()));
    let root = Config { appimages_path: "/".to_string(), icons_dir: "i".to_string() };
    assert_eq!(icon_path(&root, ""), None);
}

#[test]
fn filter_event_shows_list_and_icon() {
    let mut l = launcher();
    let r = l.handle(&settings(), Event::Filter("K".to_string())).unwrap();
    assert_eq!(
        r,
        vec![
            Action::ShowList(strs(&["Krita.AppImage", "kdenlive.AppImage"]), 1),
            Action::ShowIcon("/icons/Krita.png".to_string()),
        ]
    );
    assert_eq!(l.selected, 1);
}

#[test]
fn filter_without_matches_selects_nothing() {
    let mut l = launcher();
    let r = l.handle(&settings(), Event::Filter("zz".to_string())).unwrap();
    assert_eq!(r, vec![Action::ShowList(vec![], 0), Action::ShowIcon("/icons/apps.png".to_string())]);
    assert_eq!(l.selected, 0);
    assert_eq!(l.handle(&settings(), Event::OpenFile), Err(LauncherError::NoSelection));
}

#[test]
fn filter_event_fails_without_file_name() {
    let mut l = Launcher::new(vec![]);
    let root = Config { appimages_path: "/".to_string(), icons_dir: "i".to_string() };
    assert_eq!(l.handle(&root, Event::Filter(String::new())), Err(LauncherError::NoFileName));
}

#[test]
fn keys_move_selection_within_list() {
    let mut l = launcher();
    l.handle(&settings(), Event::Filter(String::new())).unwrap();
    let r = l.handle(&settings(), Event::KeyInput(Key::Down)).unwrap();
    assert_eq!(r, vec![Action::SelectLine(2), Action::ShowIcon("/icons/kdenlive.png".to_string())]);
    l.handle(&settings(), Event::KeyInput(Key::Down)).unwrap();
    assert_eq!(l.selected, 3);
    l.handle(&settings(), Event::KeyInput(Key::Down)).unwrap();
    assert_eq!(l.selected, 3);
    l.handle(&settings(), Event::KeyInput(Key::Up)).unwrap();
    assert_eq!(l.selected, 2);
    l.handle(&settings(), Event::KeyInput(Key::Up)).unwrap();
    l.handle(&settings(), Event::KeyInput(Key::Up)).unwrap();
    assert_eq!(l.selected, 1);
}

#[test]
fn down_then_up_returns() {
    let mut l = launcher();
    l.handle(&settings(), Event::Filter(String::new())).unwrap();
    l.handle(&settings(), Event::KeyInput(Key::Down)).unwrap();
    l.handle(&settings(), Event::KeyInput(Key::Up)).unwrap();
    assert_eq!(l.selected, 1);
    assert_eq!(l.shown.len(), 3);
}

#[test]
fn select_event_follows_click() {
    let mut l = launcher();
    l.handle(&settings(), Event::Filter(String::new())).unwrap();
    let r = l.handle(&settings(), Event::Select(3)).unwrap();
    assert_eq!(r, vec![Action::ShowIcon("/icons/Firefox.png".to_string())]);
    assert_eq!(l.handle(&settings(), Event::Select(0)).unwrap(), vec![]);
    assert_eq!(l.selected, 0);
}

#[test]
fn open_launches_selected_file() {
    let mut l = launcher();
    l.handle(&settings(), Event::Filter("f".to_string())).unwrap();
    assert_eq!(
        l.handle(&settings(), Event::OpenFile).unwrap(),
        vec![Action::Launch("/apps/Firefox.AppImage".to_string())]
    );
    assert_eq!(l.handle(&settings(), Event::KeyInput(Key::Enter)).unwrap(), vec![Action::PostOpenFile]);
}

#[test]
fn other_events() {
    let mut l = launcher();
    assert_eq!(l.handle(&settings(), Event::Refresh).unwrap(), vec![Action::RefreshThumbnails]);
    assert_eq!(l.handle(&settings(), Event::ChangeDir).unwrap(), vec![Action::Configure]);
    assert_eq!(l.handle(&settings(), Event::Close).unwrap(), vec![Action::Hide]);
    assert_eq!(l.handle(&settings(), Event::KeyInput(Key::Escape)).unwrap(), vec![Action::Hide]);
    assert_eq!(l.handle(&settings(), Event::KeyInput(Key::Other)).unwrap(), vec![]);
    assert_eq!(l.model.len(), 3);
    assert!(l.shown.is_empty());
}

#[test]
fn icon_path_from_stem() {
    assert_eq!(icon_path_for("/icons", "Krita"), "/icons/Krita.png");
    assert_eq!(icon_path_for("", ""), "/.png");
}

#[test]
fn blank_filters() {
    assert!(filter_is_blank(""));
    assert!(!filter_is_blank("a"));
    assert!(!filter_is_blank(" "));
}

#[test]
fn icon_shown_is_icon_written() {
    for name in ["Krita.AppImage", "a.b.appimage", ".hidden", "noext"] {
        let call = thumbnail_call("/apps", "/icons", name);
        assert_eq!(icon_path(&settings(), name), Some(call.args[1].clone()));
    }
}
