use gnome_voice_input::config::{Config, HotkeyConfig};
use gnome_voice_input::hotkey::{parse_hotkey, Hotkey, HotkeyError, KeyCode, Modifiers};
use gnome_voice_input::tray::{
    choose_icon, detect_desktop_environment, has_status_notifier_watcher, hotkey_label, icon_candidate_paths,
    status_label, toggle_label, DesktopKind,
};

fn with_hotkey(mods: &[&str], key: &str) -> Config {
    let mut c = Config::default();
    c.hotkey = HotkeyConfig { modifiers: mods.iter().map(|m| m.to_string()).collect(), key: key.to_string() };
    c
}

#[test]
fn default_hotkey_is_super_v() {
    let h = parse_hotkey(&Config::default()).unwrap();
    assert_eq!(
        h,
        Hotkey {
            modifiers: Modifiers { super_key: true, control: false, alt: false, shift: false },
            key: KeyCode::KeyV
        }
    );
}

#[test]
fn names_are_case_insensitive() {
    let h = parse_hotkey(&with_hotkey(&["Ctrl", "SHIFT", "Meta"], "F12")).unwrap();
    assert_eq!(h.modifiers, Modifiers { super_key: true, control: true, alt: false, shift: true });
    assert_eq!(h.key, KeyCode::F12);
    assert_eq!(parse_hotkey(&with_hotkey(&[], "Space")).unwrap().key, KeyCode::Space);
}

#[test]
fn unknown_names_are_reported() {
    match parse_hotkey(&with_hotkey(&["alt", "hyper", "bogus"], "v")) {
        Err(HotkeyError::UnknownModifier(m)) => assert_eq!(m, "hyper"),
        _ => panic!("expected an unknown modifier"),
    }
    match parse_hotkey(&with_hotkey(&["alt"], "F13")) {
        Err(HotkeyError::UnknownKey(k)) => assert_eq!(k, "F13"),
        _ => panic!("expected an unknown key"),
    }
}

#[test]
fn desktop_detection() {
    let some = |s: &str| Some(s.to_string());
    assert_eq!(detect_desktop_environment(&some("ubuntu:GNOME"), &None), DesktopKind::Gnome);
    assert_eq!(detect_desktop_environment(&some("KDE"), &None), DesktopKind::KdePlasma);
    assert_eq!(detect_desktop_environment(&some("XFCE"), &some("gnome")), DesktopKind::Xfce);
    assert_eq!(detect_desktop_environment(&some("sway"), &some("plasmawayland")), DesktopKind::KdePlasma);
    assert_eq!(detect_desktop_environment(&None, &some("xfce")), DesktopKind::Unknown);
    assert_eq!(detect_desktop_environment(&None, &None).name(), "Unknown");
    assert_eq!(DesktopKind::KdePlasma.name(), "KDE/Plasma");
}

#[test]
fn status_notifier_names() {
    let names = |v: &[&str]| v.iter().map(|s| s.to_string()).collect::<Vec<String>>();
    assert!(has_status_notifier_watcher(&names(&["org.freedesktop.DBus", "org.kde.StatusNotifierWatcher"])));
    assert!(has_status_notifier_watcher(&names(&["org.ayatana.StatusNotifierWatcher"])));
    assert!(!has_status_notifier_watcher(&names(&["org.freedesktop.DBus", "org.gnome.Shell"])));
    assert!(!has_status_notifier_watcher(&names(&[])));
}

#[test]
fn icon_paths() {
    let paths = icon_candidate_paths("microphone");
    assert_eq!(paths.len(), 48);
    assert_eq!(paths[0], "/usr/share/icons/hicolor/16x16/status/microphone.png");
    assert_eq!(paths[4], "/usr/share/icons/hicolor/scalable/status/microphone.svg");
    assert_eq!(paths[47], "/usr/share/pixmaps/microphone.svg");
}

#[test]
fn menu_labels() {
    let h = HotkeyConfig { modifiers: vec!["super".to_string(), "shift".to_string()], key: "v".to_string() };
    assert_eq!(hotkey_label(&h), "Super + Shift + V");
    assert_eq!(toggle_label(&h), "Toggle Recording (Super + Shift + V)");
    assert_eq!(status_label(true), "\u{1F534} Recording Active");
    assert_eq!(status_label(false), "\u{26AA} Recording Inactive");
}

#[test]
fn first_available_icon_wins() {
    assert_eq!(choose_icon(&vec![false, true, false, true, false, false]), "microphone");
    assert_eq!(choose_icon(&vec![true; 6]), "audio-input-microphone");
    assert_eq!(choose_icon(&vec![false; 6]), "application-x-executable");
}
