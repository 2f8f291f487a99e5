use nudge_loop::{
    menu_event_action, reveal_requests, str_equals, tray_icon_event_action, MenuCommand,
    MouseButton, MouseButtonState, TrayAction, TrayIconEvent, WindowRequest, QUIT_EXIT_CODE,
};

fn left_release() -> TrayIconEvent {
    TrayIconEvent::Click { button: MouseButton::Left, button_state: MouseButtonState::Up }
}

#[test]
fn show_menu_with_window_present_shows_then_focuses() {
    let action = menu_event_action("show");
    assert_eq!(action, TrayAction::RevealMainWindow);
    assert!(action.needs_main_window());
    assert_eq!(action.exit_code(), None);
    assert_eq!(action.window_requests(true), vec![WindowRequest::Show, WindowRequest::Focus]);
}

#[test]
fn show_menu_without_window_makes_no_request() {
    let action = menu_event_action("show");
    assert_eq!(action.window_requests(false), Vec::<WindowRequest>::new());
    assert_eq!(action.exit_code(), None);
}

#[test]
fn quit_menu_exits_with_code_zero() {
    let action = menu_event_action("quit");
    assert_eq!(action, TrayAction::Exit(0));
    assert_eq!(action.exit_code(), Some(0));
    assert_eq!(QUIT_EXIT_CODE, 0);
    assert!(!action.needs_main_window());
}

#[test]
fn quit_menu_exits_whether_or_not_window_exists() {
    let action = menu_event_action("quit");
    assert_eq!(action.exit_code(), Some(0));
    assert!(action.window_requests(true).is_empty());
    assert!(action.window_requests(false).is_empty());
}

#[test]
fn unknown_menu_ids_are_ignored() {
    for id in ["about", "", "Show", "QUIT", "quit ", " show", "settings", "显示窗口"] {
        let action = menu_event_action(id);
        assert_eq!(action, TrayAction::Ignore, "id {:?}", id);
        assert_eq!(action.exit_code(), None);
        assert!(!action.needs_main_window());
        assert!(action.window_requests(true).is_empty());
        assert!(action.window_requests(false).is_empty());
    }
}

#[test]
fn menu_ids_decode_to_commands() {
    assert_eq!(MenuCommand::from_id("show"), MenuCommand::Show);
    assert_eq!(MenuCommand::from_id("quit"), MenuCommand::Quit);
    assert_eq!(MenuCommand::from_id("prefs"), MenuCommand::Unknown("prefs".to_string()));
    assert_eq!(MenuCommand::from_id(""), MenuCommand::Unknown(String::new()));
    assert_eq!(MenuCommand::Show.action(), TrayAction::RevealMainWindow);
    assert_eq!(MenuCommand::Quit.action(), TrayAction::Exit(0));
    assert_eq!(MenuCommand::Unknown("x".to_string()).action(), TrayAction::Ignore);
}

#[test]
fn left_release_reveals_main_window() {
    let action = tray_icon_event_action(&left_release());
    assert_eq!(action, TrayAction::RevealMainWindow);
    assert_eq!(action.exit_code(), None);
    assert_eq!(action.window_requests(true), vec![WindowRequest::Show, WindowRequest::Focus]);
    assert!(action.window_requests(false).is_empty());
}

#[test]
fn other_pointer_events_are_ignored() {
    let events = [
        TrayIconEvent::Click { button: MouseButton::Left, button_state: MouseButtonState::Down },
        TrayIconEvent::Click { button: MouseButton::Right, button_state: MouseButtonState::Up },
        TrayIconEvent::Click { button: MouseButton::Right, button_state: MouseButtonState::Down },
        TrayIconEvent::Click { button: MouseButton::Middle, button_state: MouseButtonState::Up },
        TrayIconEvent::DoubleClick { button: MouseButton::Left },
        TrayIconEvent::Enter,
        TrayIconEvent::Move,
        TrayIconEvent::Leave,
    ];
    for event in events {
        let action = tray_icon_event_action(&event);
        assert_eq!(action, TrayAction::Ignore, "event {:?}", event);
        assert_eq!(action.exit_code(), None);
        assert!(action.window_requests(true).is_empty());
    }
}

#[test]
fn reveal_requests_follow_window_presence() {
    assert_eq!(reveal_requests(true), vec![WindowRequest::Show, WindowRequest::Focus]);
    assert!(reveal_requests(false).is_empty());
}

#[test]
fn string_comparison() {
    assert!(str_equals("show", "show"));
    assert!(str_equals("", ""));
    assert!(str_equals("退出", "退出"));
    assert!(!str_equals("show", "shoW"));
    assert!(!str_equals("show", "shows"));
    assert!(!str_equals("", "quit"));
    assert!(!str_equals("退出", "退入"));
}
