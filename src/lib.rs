//! Background presence for a desktop application: the decisions behind its
//! tray icon and menu, and the command that emits an OS notification.
//!
//! The library decides; the host runtime acts. Tray input is turned into a
//! [`TrayAction`], the action into window requests or an exit code, and the
//! outcome of a notification submission into the result handed back to the
//! caller.

pub mod notification;
pub mod setup;
mod text;
pub mod tray;

pub use notification::{notification_result, NotificationRequest};
pub use setup::{
    autostart_args, tray_icon_config, tray_menu_items, TrayIconConfig, TrayMenuItem,
    AUTOSTART_ARG, MAIN_WINDOW_LABEL, TRAY_TOOLTIP,
};
pub use text::str_equals;
pub use tray::{
    menu_event_action, reveal_requests, tray_icon_event_action, MenuCommand, MouseButton,
    MouseButtonState, TrayAction, TrayIconEvent, WindowRequest, QUIT_EXIT_CODE,
};
