use vstd::prelude::*;
use vstd::string::StringExecFns;

verus! {

/// The label of the one window that the tray controller acts on.
pub const MAIN_WINDOW_LABEL: &'static str = "main";

/// The tooltip of the tray icon.
pub const TRAY_TOOLTIP: &'static str = "Nudge Loop";

/// The argument that the application is started with at login.
pub const AUTOSTART_ARG: &'static str = "--minimized";

/// An item of the tray menu.
#[derive(Clone, Debug)]
pub struct TrayMenuItem {
    /// The id that menu events carry when this item is selected.
    pub id: String,
    /// The text shown to the user.
    pub label: String,
    pub enabled: bool,
}

/// How the tray icon is built.
#[derive(Clone, Debug)]
pub struct TrayIconConfig {
    /// The menu, in display order.
    pub menu: Vec<TrayMenuItem>,
    /// Whether a left click opens the menu; it does not, since a left click
    /// brings the main window back.
    pub menu_on_left_click: bool,
    pub tooltip: String,
}

/// The menu holds `show` and then `quit`, both enabled.
pub open spec fn is_tray_menu(items: Seq<TrayMenuItem>) -> bool {
    &&& items.len() == 2
    &&& items[0].id@ == "show"@
    &&& items[0].label@ == "显示窗口"@
    &&& items[0].enabled
    &&& items[1].id@ == "quit"@
    &&& items[1].label@ == "退出"@
    &&& items[1].enabled
}

/// The items of the tray menu, in order.
pub fn tray_menu_items() -> (r: Vec<TrayMenuItem>)
    ensures
        is_tray_menu(r@),
{
    let show = TrayMenuItem {
        id: String::from_str("show"),
        label: String::from_str("显示窗口"),
        enabled: true,
    };
    let quit = TrayMenuItem {
        id: String::from_str("quit"),
        label: String::from_str("退出"),
        enabled: true,
    };
    vec![show, quit]
}

/// The configuration of the tray icon: the menu above, no menu on a left
/// click, and a fixed tooltip.
pub fn tray_icon_config() -> (r: TrayIconConfig)
    ensures
        is_tray_menu(r.menu@),
        !r.menu_on_left_click,
        r.tooltip@ == TRAY_TOOLTIP@,
{
    TrayIconConfig {
        menu: tray_menu_items(),
        menu_on_left_click: false,
        tooltip: String::from_str(TRAY_TOOLTIP),
    }
}

/// The arguments that the autostart entry starts the application with.
pub fn autostart_args() -> (r: Vec<String>)
    ensures
        r@.len() == 1,
        r@[0]@ == AUTOSTART_ARG@,
{
    vec![String::from_str(AUTOSTART_ARG)]
}

} // verus!
