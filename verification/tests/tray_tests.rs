use telegram_air::AppStateStruct;
use telegram_air::strmap::StrMap;
use telegram_air::tray::{
    MenuTranslations, TrayAction, TrayManager, WindowInfo, handle_icon_click, handle_menu_event,
    set_menu_translations, set_notifications_count, translated_label, tray_click_handler,
};
use telegram_air::urls::strip_hash_from_url;

fn window(label: &str, visible: bool, minimized: bool, url: &str) -> WindowInfo {
    WindowInfo {
        label: label.to_string(),
        visible,
        minimized,
        url: url.to_string(),
    }
}

fn state(count: i32, muted: bool) -> AppStateStruct {
    AppStateStruct { notification_count: count, is_muted: muted }
}

#[test]
fn click_with_no_windows_reopens_last_url() {
    let windows: Vec<WindowInfo> = Vec::new();
    let mut last = "https://example.com/chat".to_string();
    let action = handle_icon_click(&windows, false, &state(0, false), &mut last);
    match action {
        TrayAction::OpenWindow { url } => assert_eq!(url, "https://example.com/chat"),
        _ => panic!("expected a reopen"),
    }
    assert_eq!(last, "https://example.com/chat");
}

#[test]
fn plain_click_closes_the_visible_window_and_saves_its_url() {
    let windows = vec![
        window("hidden", false, false, "https://example.com/a#x"),
        window("shown", true, false, "https://example.com/chat#m42"),
        window("minimized", true, true, "https://example.com/b#y"),
    ];
    let mut last = "http://localhost:1234".to_string();
    let action = handle_icon_click(&windows, false, &state(0, false), &mut last);
    match action {
        TrayAction::CloseWindow { label } => assert_eq!(label, "shown"),
        _ => panic!("expected a close"),
    }
    // The saved URL is the closed window's URL, fragment-stripped.
    assert_eq!(last, "https://example.com/chat");
    assert_eq!(last, strip_hash_from_url(&"https://example.com/chat#m42".to_string()));
}

#[test]
fn explicit_open_leaves_a_visible_window_alone() {
    let windows = vec![window("shown", true, false, "https://example.com/chat")];
    let mut last = "http://localhost:1234".to_string();
    let action = handle_icon_click(&windows, true, &state(0, false), &mut last);
    assert!(matches!(action, TrayAction::Nothing));
    assert_eq!(last, "http://localhost:1234");
}

#[test]
fn click_with_no_visible_window_shows_the_first() {
    let windows = vec![
        window("w1", false, false, "u1"),
        window("w2", true, true, "u2"),
    ];
    let mut last = "http://localhost:1234".to_string();
    let action = handle_icon_click(&windows, false, &state(7, true), &mut last);
    match action {
        TrayAction::ShowFirst { label, badge } => {
            assert_eq!(label, "w1");
            let badge = badge.expect("pending notifications reapply the badge");
            assert_eq!(badge.amount, 7);
            assert!(badge.is_muted);
        }
        _ => panic!("expected a show"),
    }
    assert_eq!(last, "http://localhost:1234");
}

#[test]
fn show_first_without_pending_notifications_has_no_badge() {
    let windows = vec![window("w1", false, false, "u1")];
    let mut last = "l".to_string();
    match handle_icon_click(&windows, false, &state(0, false), &mut last) {
        TrayAction::ShowFirst { badge, .. } => assert!(badge.is_none()),
        _ => panic!("expected a show"),
    }
}

#[test]
fn only_left_button_release_toggles() {
    let windows = vec![window("shown", true, false, "https://example.com/c#f")];
    let mut last = "orig".to_string();
    let action = tray_click_handler(false, true, &windows, &state(0, false), &mut last);
    assert!(matches!(action, TrayAction::Nothing));
    let action = tray_click_handler(true, false, &windows, &state(0, false), &mut last);
    assert!(matches!(action, TrayAction::Nothing));
    assert_eq!(last, "orig");
    let action = tray_click_handler(true, true, &windows, &state(0, false), &mut last);
    assert!(matches!(action, TrayAction::CloseWindow { .. }));
}

#[test]
fn left_click_dispatches_like_a_plain_click() {
    // No windows: reopen at the last URL.
    let mut last = "https://example.com/saved".to_string();
    let action = tray_click_handler(true, true, &Vec::new(), &state(0, false), &mut last);
    match action {
        TrayAction::OpenWindow { url } => assert_eq!(url, "https://example.com/saved"),
        _ => panic!("expected a reopen"),
    }
    // None shown: show the first, with the pending badge.
    let windows = vec![window("w1", false, false, "u1")];
    let action = tray_click_handler(true, true, &windows, &state(2, true), &mut last);
    match action {
        TrayAction::ShowFirst { label, badge } => {
            assert_eq!(label, "w1");
            let badge = badge.unwrap();
            assert_eq!(badge.amount, 2);
            assert!(badge.is_muted);
        }
        _ => panic!("expected a show"),
    }
}

#[test]
fn menu_quit_and_unknown_items() {
    let windows: Vec<WindowInfo> = Vec::new();
    let mut last = "l".to_string();
    let action = handle_menu_event(&"quit".to_string(), &windows, &state(0, false), &mut last);
    assert!(matches!(action, TrayAction::Quit));
    let action = handle_menu_event(&"other".to_string(), &windows, &state(0, false), &mut last);
    assert!(matches!(action, TrayAction::Nothing));
    let action = handle_menu_event(&"open".to_string(), &windows, &state(0, false), &mut last);
    assert!(matches!(action, TrayAction::OpenWindow { .. }));
}

#[test]
fn menu_open_does_not_close_a_visible_window() {
    let windows = vec![window("shown", true, false, "https://example.com/c#f")];
    let mut last = "orig".to_string();
    let action = handle_menu_event(&"open".to_string(), &windows, &state(0, false), &mut last);
    assert!(matches!(action, TrayAction::Nothing));
    assert_eq!(last, "orig");
}

#[test]
fn tray_menu_uses_translations() {
    let mut translations: MenuTranslations = StrMap::new();
    let (_, config) = TrayManager::init(&translations, true);
    assert_eq!(config.open_id, "open");
    assert_eq!(config.quit_id, "quit");
    assert_eq!(config.open_label, "Open Telegram");
    assert_eq!(config.quit_label, "Quit Telegram");
    assert_eq!(config.tooltip, "Telegram Air");
    assert!(!config.show_menu_on_left_click);
    assert!(config.icon_as_template);

    let mut fresh: MenuTranslations = StrMap::new();
    fresh.insert(&"open".to_string(), "Abrir Telegram".to_string());
    set_menu_translations(&mut translations, fresh);
    let (_, config) = TrayManager::init(&translations, false);
    assert_eq!(config.open_label, "Abrir Telegram");
    assert_eq!(config.quit_label, "Quit Telegram");
    assert!(!config.icon_as_template);

    assert_eq!(
        translated_label(&translations, &"open".to_string(), "Open Telegram"),
        "Abrir Telegram"
    );
    assert_eq!(
        translated_label(&translations, &"quit".to_string(), "Quit Telegram"),
        "Quit Telegram"
    );
}

#[test]
fn notifications_count_updates_state_and_os_badge() {
    let mut st = state(0, false);
    assert_eq!(set_notifications_count(&mut st, 5, true), Some(5));
    assert_eq!(st.notification_count, 5);
    assert!(st.is_muted);
    assert_eq!(set_notifications_count(&mut st, 0, false), None);
    assert_eq!(st.notification_count, 0);
    assert!(!st.is_muted);
    assert_eq!(set_notifications_count(&mut st, -2, false), None);
}
