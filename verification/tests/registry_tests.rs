use telegram_air::registry::{WindowRegistry, WindowState};
use telegram_air::strmap::StrMap;
use telegram_air::{
    AppStateStruct, mark_title_bar_overlay, on_close_requested, on_window_destroyed,
    open_new_window, set_window_title,
};

#[test]
fn opening_windows_yields_distinct_entries() {
    let mut reg: WindowRegistry = StrMap::new();
    let a = open_new_window(&mut reg, "http://localhost:1234/a".to_string(), true, &AppStateStruct::default());
    let b = open_new_window(&mut reg, "http://localhost:1234/b".to_string(), true, &AppStateStruct::default());
    let c = open_new_window(&mut reg, "http://localhost:1234/c".to_string(), true, &AppStateStruct::default());
    assert_eq!(a.label.len(), 36);
    assert_ne!(a.label, b.label);
    assert_ne!(b.label, c.label);
    assert_ne!(a.label, c.label);
    assert_eq!(reg.len(), 3);
    assert!(reg.contains(&a.label));
    assert!(reg.contains(&b.label));
    assert!(reg.contains(&c.label));
}

#[test]
fn destroying_one_window_removes_exactly_that_entry() {
    let mut reg: WindowRegistry = StrMap::new();
    let a = open_new_window(&mut reg, "http://localhost:1234".to_string(), false, &AppStateStruct::default());
    let b = open_new_window(&mut reg, "http://localhost:1234".to_string(), false, &AppStateStruct::default());
    let c = open_new_window(&mut reg, "http://localhost:1234".to_string(), false, &AppStateStruct::default());
    set_window_title(&mut reg, &b.label, "Chats".to_string());

    let removed = on_window_destroyed(&mut reg, &a.label);
    assert!(removed);
    assert_eq!(reg.len(), 2);
    assert!(!reg.contains(&a.label));
    // The other entries are untouched.
    assert_eq!(reg.get(&b.label).unwrap().title, "Chats");
    assert_eq!(reg.get(&c.label).unwrap().title, "Telegram Air");

    // Removing it again changes nothing.
    assert!(!on_window_destroyed(&mut reg, &a.label));
    assert_eq!(reg.len(), 2);
}

#[test]
fn new_window_config_defaults() {
    let mut reg: WindowRegistry = StrMap::new();
    let state = AppStateStruct { notification_count: 4, is_muted: true };
    let cfg = open_new_window(&mut reg, "http://localhost:1234/x".to_string(), true, &state);
    assert_eq!(cfg.url, "http://localhost:1234/x");
    assert_eq!(cfg.title, "");
    assert_eq!(cfg.width, 1088);
    assert_eq!(cfg.height, 700);
    assert_eq!(cfg.min_width, 360);
    assert_eq!(cfg.min_height, 200);
    assert!(!cfg.fullscreen);
    assert!(cfg.resizable);
    assert!(cfg.overlay_title_bar);
    assert!(cfg.disable_drag_drop_handler);
    // The stored notification state rides along, to be applied to the
    // window once it is built.
    assert_eq!(cfg.notification_count, 4);
    assert!(cfg.notification_muted);
    assert!(reg.get(&cfg.label).unwrap().is_overlay);
    assert_eq!(reg.get(&cfg.label).unwrap().title, "Telegram Air");
}

#[test]
fn overlay_toggle_off_restores_stored_title() {
    let mut reg: WindowRegistry = StrMap::new();
    let label = "w1".to_string();
    reg.insert(&label, WindowState { title: "Saved Chats".to_string(), is_overlay: false });

    let on = mark_title_bar_overlay(&mut reg, &label, true, 15);
    assert!(on.overlay_style);
    assert_eq!(on.title, "");
    assert_eq!((on.position.x, on.position.y), (12, 26));
    assert!(reg.get(&label).unwrap().is_overlay);

    // The stored title survives the overlay phase untouched ...
    assert_eq!(reg.get(&label).unwrap().title, "Saved Chats");

    // ... and toggling the overlay off restores it exactly.
    let off = mark_title_bar_overlay(&mut reg, &label, false, 15);
    assert!(!off.overlay_style);
    assert_eq!(off.title, "Saved Chats");
    assert_eq!((off.position.x, off.position.y), (12, 12));
    assert!(!reg.get(&label).unwrap().is_overlay);
}

#[test]
fn overlay_toggle_off_unknown_window_uses_default_title() {
    let mut reg: WindowRegistry = StrMap::new();
    let label = "missing".to_string();
    let off = mark_title_bar_overlay(&mut reg, &label, false, 15);
    assert_eq!(off.title, "Telegram Air");
    assert!(!reg.contains(&label));
}

#[test]
fn overlay_position_depends_on_os_version() {
    let mut reg: WindowRegistry = StrMap::new();
    let label = "w1".to_string();
    reg.insert(&label, WindowState { title: "T".to_string(), is_overlay: false });
    let legacy = mark_title_bar_overlay(&mut reg, &label, true, 14);
    assert_eq!((legacy.position.x, legacy.position.y), (12, 26));
    let tall = mark_title_bar_overlay(&mut reg, &label, true, 26);
    assert_eq!((tall.position.x, tall.position.y), (12, 30));
}

#[test]
fn set_title_applies_only_without_overlay() {
    let mut reg: WindowRegistry = StrMap::new();
    let label = "w1".to_string();
    reg.insert(&label, WindowState { title: "Old".to_string(), is_overlay: true });

    // Overlay mode: stored, not applied natively.
    let apply = set_window_title(&mut reg, &label, "New".to_string());
    assert!(apply.is_none());
    assert_eq!(reg.get(&label).unwrap().title, "New");

    // Visible mode: stored and applied.
    mark_title_bar_overlay(&mut reg, &label, false, 15);
    let apply = set_window_title(&mut reg, &label, "Newer".to_string());
    assert_eq!(apply.unwrap(), "Newer");
    assert_eq!(reg.get(&label).unwrap().title, "Newer");

    // Unknown windows are left alone.
    let apply = set_window_title(&mut reg, &"other".to_string(), "X".to_string());
    assert!(apply.is_none());
}

#[test]
fn close_request_hides_only_the_last_window() {
    let mut last = "http://localhost:1234".to_string();
    let url = "https://example.com/chat#m42".to_string();

    let hide = on_close_requested(2, &url, &mut last);
    assert!(!hide);
    assert_eq!(last, "http://localhost:1234");

    let hide = on_close_requested(1, &url, &mut last);
    assert!(hide);
    assert_eq!(last, "https://example.com/chat");
}
