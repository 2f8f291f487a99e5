use nudge_loop::{
    autostart_args, tray_icon_config, tray_menu_items, AUTOSTART_ARG, MAIN_WINDOW_LABEL,
    TRAY_TOOLTIP,
};

#[test]
fn tray_menu_holds_show_then_quit() {
    let items = tray_menu_items();
    assert_eq!(items.len(), 2);
    assert_eq!(items[0].id, "show");
    assert_eq!(items[0].label, "显示窗口");
    assert!(items[0].enabled);
    assert_eq!(items[1].id, "quit");
    assert_eq!(items[1].label, "退出");
    assert!(items[1].enabled);
}

#[test]
fn tray_icon_keeps_left_click_for_the_window() {
    let config = tray_icon_config();
    assert!(!config.menu_on_left_click);
    assert_eq!(config.tooltip, "Nudge Loop");
    assert_eq!(config.tooltip, TRAY_TOOLTIP);
    let ids: Vec<&str> = config.menu.iter().map(|i| i.id.as_str()).collect();
    assert_eq!(ids, vec!["show", "quit"]);
}

#[test]
fn autostart_starts_minimized() {
    assert_eq!(autostart_args(), vec!["--minimized".to_string()]);
    assert_eq!(AUTOSTART_ARG, "--minimized");
}

#[test]
fn main_window_label_is_fixed() {
    assert_eq!(MAIN_WINDOW_LABEL, "main");
}
