use vstd::prelude::*;
use vstd::string::StringExecFns;

use crate::text::str_equals;

verus! {

/// The two menu ids are distinct strings.
pub proof fn lemma_menu_ids_differ()
    ensures
        "show"@ != "quit"@,
{
    reveal_strlit("show");
    reveal_strlit("quit");
    assert("show"@[0] != "quit"@[0]);
}

/// A tray menu selection, decoded once from the selected item's id.
#[derive(Clone, Debug, PartialEq, Eq)]
pub enum MenuCommand {
    /// Bring the main window back and give it focus.
    Show,
    /// End the process at once.
    Quit,
    /// An id that this controller does not handle.
    Unknown(String),
}

impl MenuCommand {
    /// Decodes a menu item id: `"show"` and `"quit"` are recognised, every
    /// other id is kept as it is.
    pub fn from_id(id: &str) -> (r: MenuCommand)
        ensures
            r is Show <==> id@ == "show"@,
            r is Quit <==> id@ == "quit"@,
            r is Unknown ==> r->Unknown_0@ == id@,
    {
        proof {
            lemma_menu_ids_differ();
        }
        if str_equals(id, "show") {
            MenuCommand::Show
        } else if str_equals(id, "quit") {
            MenuCommand::Quit
        } else {
            MenuCommand::Unknown(String::from_str(id))
        }
    }
}


/// What the controller does in answer to one piece of tray input.
#[derive(Clone, Copy, Debug, PartialEq, Eq, Structural)]
pub enum TrayAction {
    /// Look up the main window and, if it exists, show it and then focus it.
    RevealMainWindow,
    /// Terminate the process at once with this exit code.
    Exit(i32),
    /// Do nothing.
    Ignore,
}

/// One request made of the main window, in the order it is made.
#[derive(Clone, Copy, Debug, PartialEq, Eq, Structural)]
pub enum WindowRequest {
    Show,
    Focus,
}

/// A mouse button, as a tray pointer event reports it.
#[derive(Clone, Copy, Debug, PartialEq, Eq, Structural)]
pub enum MouseButton {
    Left,
    Right,
    Middle,
}

/// Whether a pointer event is a press or a release.
#[derive(Clone, Copy, Debug, PartialEq, Eq, Structural)]
pub enum MouseButtonState {
    Up,
    Down,
}

/// A pointer event on the tray icon, reduced to what the controller reads.
#[derive(Clone, Copy, Debug, PartialEq, Eq, Structural)]
pub enum TrayIconEvent {
    Click { button: MouseButton, button_state: MouseButtonState },
    DoubleClick { button: MouseButton },
    Enter,
    Move,
    Leave,
}

/// The exit code of the quit action.
pub const QUIT_EXIT_CODE: i32 = 0;

/// The action for a menu selection, by the selected item's id.
pub open spec fn menu_id_action(id: Seq<char>) -> TrayAction {
    if id == "show"@ {
        TrayAction::RevealMainWindow
    } else if id == "quit"@ {
        TrayAction::Exit(QUIT_EXIT_CODE)
    } else {
        TrayAction::Ignore
    }
}

/// The action for a decoded menu command.
pub open spec fn menu_command_action(c: MenuCommand) -> TrayAction {
    match c {
        MenuCommand::Show => TrayAction::RevealMainWindow,
        MenuCommand::Quit => TrayAction::Exit(QUIT_EXIT_CODE),
        MenuCommand::Unknown(_) => TrayAction::Ignore,
    }
}

/// A release of the left button on the tray icon: the gesture that brings the
/// main window back.
pub open spec fn is_reveal_gesture(e: TrayIconEvent) -> bool {
    e matches TrayIconEvent::Click { button, button_state } && button == MouseButton::Left
        && button_state == MouseButtonState::Up
}

/// The action for a pointer event on the tray icon.
pub open spec fn tray_icon_action(e: TrayIconEvent) -> TrayAction {
    if is_reveal_gesture(e) {
        TrayAction::RevealMainWindow
    } else {
        TrayAction::Ignore
    }
}

/// The requests that revealing the main window makes: show then focus when
/// the window exists, none when it does not.
pub open spec fn reveal_sequence(main_window_found: bool) -> Seq<WindowRequest> {
    if main_window_found {
        seq![WindowRequest::Show, WindowRequest::Focus]
    } else {
        Seq::empty()
    }
}

/// The requests that an action makes of the main window.
pub open spec fn window_requests_of(a: TrayAction, main_window_found: bool) -> Seq<WindowRequest> {
    match a {
        TrayAction::RevealMainWindow => reveal_sequence(main_window_found),
        _ => Seq::empty(),
    }
}

/// The exit code that an action ends the process with, if it ends it.
pub open spec fn exit_code_of(a: TrayAction) -> Option<i32> {
    match a {
        TrayAction::Exit(code) => Some(code),
        _ => None,
    }
}

impl MenuCommand {
    /// The action that this menu command calls for.
    pub fn action(&self) -> (r: TrayAction)
        ensures
            r == menu_command_action(*self),
    {
        match self {
            MenuCommand::Show => TrayAction::RevealMainWindow,
            MenuCommand::Quit => TrayAction::Exit(QUIT_EXIT_CODE),
            MenuCommand::Unknown(_) => TrayAction::Ignore,
        }
    }
}

/// The action for a menu selection whose item has the id `id`.
pub fn menu_event_action(id: &str) -> (r: TrayAction)
    ensures
        r == menu_id_action(id@),
{
    let command = MenuCommand::from_id(id);
    command.action()
}

/// The action for a pointer event on the tray icon: only a left-button
/// release reveals the main window.
pub fn tray_icon_event_action(event: &TrayIconEvent) -> (r: TrayAction)
    ensures
        r == tray_icon_action(*event),
{
    match event {
        TrayIconEvent::Click { button: MouseButton::Left, button_state: MouseButtonState::Up } => {
            TrayAction::RevealMainWindow
        },
        _ => TrayAction::Ignore,
    }
}

/// The requests that reveal the main window, given whether it was found.
pub fn reveal_requests(main_window_found: bool) -> (r: Vec<WindowRequest>)
    ensures
        r@ == reveal_sequence(main_window_found),
{
    if main_window_found {
        let r = vec![WindowRequest::Show, WindowRequest::Focus];
        assert(r@ =~= reveal_sequence(main_window_found));
        r
    } else {
        let r: Vec<WindowRequest> = Vec::new();
        assert(r@ =~= reveal_sequence(main_window_found));
        r
    }
}

impl TrayAction {
    /// Whether carrying out this action reads the main window, so that the
    /// host has to look it up first.
    pub fn needs_main_window(&self) -> (r: bool)
        ensures
            r == (*self is RevealMainWindow),
    {
        match self {
            TrayAction::RevealMainWindow => true,
            _ => false,
        }
    }

    /// The requests to make of the main window, in order, given whether the
    /// lookup found it.
    pub fn window_requests(&self, main_window_found: bool) -> (r: Vec<WindowRequest>)
        ensures
            r@ == window_requests_of(*self, main_window_found),
    {
        match self {
            TrayAction::RevealMainWindow => reveal_requests(main_window_found),
            _ => {
                let r: Vec<WindowRequest> = Vec::new();
                assert(r@ =~= window_requests_of(*self, main_window_found));
                r
            },
        }
    }

    /// The code to exit with, when the action ends the process.
    pub fn exit_code(&self) -> (r: Option<i32>)
        ensures
            r == exit_code_of(*self),
    {
        match self {
            TrayAction::Exit(code) => Some(*code),
            _ => None,
        }
    }
}

/// A menu selection whose id is neither `"show"` nor `"quit"` does nothing:
/// it neither ends the process nor makes any request of the main window.
pub proof fn lemma_unrecognised_menu_id_is_ignored(id: Seq<char>, main_window_found: bool)
    requires
        id != "show"@,
        id != "quit"@,
    ensures
        menu_id_action(id) == TrayAction::Ignore,
        exit_code_of(menu_id_action(id)) is None,
        window_requests_of(menu_id_action(id), main_window_found).len() == 0,
{
}

/// Selecting `"quit"` always ends the process with exit code 0, whether or not
/// the main window exists, and makes no request of the window.
pub proof fn lemma_quit_exits_with_zero(main_window_found: bool)
    ensures
        exit_code_of(menu_id_action("quit"@)) == Some(0i32),
        window_requests_of(menu_id_action("quit"@), main_window_found).len() == 0,
{
    lemma_menu_ids_differ();
}

/// Selecting `"show"` makes exactly one show request and then exactly one
/// focus request when the main window exists, and no request when it does not;
/// it never ends the process.
pub proof fn lemma_show_reveals_main_window(main_window_found: bool)
    ensures
        exit_code_of(menu_id_action("show"@)) is None,
        main_window_found ==> window_requests_of(menu_id_action("show"@), main_window_found)
            == seq![WindowRequest::Show, WindowRequest::Focus],
        !main_window_found ==> window_requests_of(menu_id_action("show"@), main_window_found).len()
            == 0,
{
}

/// A left-button release on the tray icon makes exactly one show request and
/// then exactly one focus request when the main window exists, and no request
/// when it does not; it never ends the process.
pub proof fn lemma_left_release_reveals_main_window(main_window_found: bool)
    ensures
        ({
            let e = TrayIconEvent::Click {
                button: MouseButton::Left,
                button_state: MouseButtonState::Up,
            };
            &&& exit_code_of(tray_icon_action(e)) is None
            &&& main_window_found ==> window_requests_of(tray_icon_action(e), main_window_found)
                == seq![WindowRequest::Show, WindowRequest::Focus]
            &&& !main_window_found ==> window_requests_of(tray_icon_action(e), main_window_found).len()
                == 0
        }),
{
}

/// Every tray pointer event other than a left-button release does nothing to
/// the main window and does not end the process.
pub proof fn lemma_other_pointer_events_are_ignored(e: TrayIconEvent, main_window_found: bool)
    requires
        !is_reveal_gesture(e),
    ensures
        tray_icon_action(e) == TrayAction::Ignore,
        exit_code_of(tray_icon_action(e)) is None,
        window_requests_of(tray_icon_action(e), main_window_found).len() == 0,
{
}

} // verus!
