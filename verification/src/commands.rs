use vstd::prelude::*;

use crate::text::str_equal;
use crate::window::{initial_toggle_label, ToggleLabel};

verus! {

/// Identifier of the tray icon.
pub const TRAY_ID: &'static str = "main-tray";

/// Id of the menu item that shows or hides the window.
pub const MENU_TOGGLE_WINDOW: &'static str = "toggle-window";

/// Id of the menu item that turns launch at login on or off.
pub const MENU_AUTOSTART: &'static str = "autostart";

/// Id of the menu item that quits.
pub const MENU_QUIT: &'static str = "quit";

/// Command-line flag that the login item launches the app with.
pub const AUTOSTART_ARG: &'static str = "--autostart";

/// The items of the tray menu.
#[derive(PartialEq, Eq, Structural, Clone, Copy, Debug)]
pub enum MenuCommand {
    ToggleWindow,
    ToggleAutostart,
    Quit,
}

pub open spec fn spec_menu_item_id(command: MenuCommand) -> Seq<char> {
    match command {
        MenuCommand::ToggleWindow => MENU_TOGGLE_WINDOW@,
        MenuCommand::ToggleAutostart => MENU_AUTOSTART@,
        MenuCommand::Quit => MENU_QUIT@,
    }
}

pub open spec fn spec_menu_command(id: Seq<char>) -> Option<MenuCommand> {
    if id == MENU_TOGGLE_WINDOW@ {
        Some(MenuCommand::ToggleWindow)
    } else if id == MENU_AUTOSTART@ {
        Some(MenuCommand::ToggleAutostart)
    } else if id == MENU_QUIT@ {
        Some(MenuCommand::Quit)
    } else {
        None
    }
}

/// The id that the menu item of `command` is built with.
pub fn menu_item_id(command: MenuCommand) -> (r: &'static str)
    ensures
        r@ == spec_menu_item_id(command),
{
    match command {
        MenuCommand::ToggleWindow => MENU_TOGGLE_WINDOW,
        MenuCommand::ToggleAutostart => MENU_AUTOSTART,
        MenuCommand::Quit => MENU_QUIT,
    }
}

/// The command of the menu item with id `id`; other ids do nothing.
pub fn menu_command(id: &str) -> (r: Option<MenuCommand>)
    ensures
        r == spec_menu_command(id@),
{
    if str_equal(id, MENU_TOGGLE_WINDOW) {
        Some(MenuCommand::ToggleWindow)
    } else if str_equal(id, MENU_AUTOSTART) {
        Some(MenuCommand::ToggleAutostart)
    } else if str_equal(id, MENU_QUIT) {
        Some(MenuCommand::Quit)
    } else {
        None
    }
}

/// The kind of pointer event on the tray icon.
#[derive(PartialEq, Eq, Structural, Clone, Copy, Debug)]
pub enum TrayPointer {
    Click,
    DoubleClick,
    Other,
}

/// What a pointer event on the tray icon does to the window.
#[derive(PartialEq, Eq, Structural, Clone, Copy, Debug)]
pub enum TrayIconAction {
    ToggleWindow,
    ShowWindow,
}

pub open spec fn spec_tray_icon_action(
    pointer: TrayPointer,
    icon_id: Seq<char>,
    left_button: bool,
    released: bool,
) -> Option<TrayIconAction> {
    if icon_id != TRAY_ID@ || !left_button {
        None
    } else {
        match pointer {
            TrayPointer::Click => if released {
                Some(TrayIconAction::ToggleWindow)
            } else {
                None
            },
            TrayPointer::DoubleClick => Some(TrayIconAction::ShowWindow),
            TrayPointer::Other => None,
        }
    }
}

/// On this app's tray icon, a left click (on release) toggles the window and
/// a left double click shows it; any other event does nothing.
pub fn tray_icon_action(pointer: TrayPointer, icon_id: &str, left_button: bool, released: bool) -> (r:
    Option<TrayIconAction>)
    ensures
        r == spec_tray_icon_action(pointer, icon_id@, left_button, released),
{
    if !left_button || !str_equal(icon_id, TRAY_ID) {
        return None;
    }
    match pointer {
        TrayPointer::Click => if released {
            Some(TrayIconAction::ToggleWindow)
        } else {
            None
        },
        TrayPointer::DoubleClick => Some(TrayIconAction::ShowWindow),
        TrayPointer::Other => None,
    }
}

/// Whether the command line holds the flag of a launch at login.
pub open spec fn spec_is_autostart_launch(args: Seq<String>) -> bool {
    exists|i: int| 0 <= i < args.len() && #[trigger] args[i]@ == AUTOSTART_ARG@
}

/// A launch at login (with the `--autostart` flag) starts with the window
/// hidden.
pub fn is_autostart_launch(args: &Vec<String>) -> (r: bool)
    ensures
        r == spec_is_autostart_launch(args@),
{
    let mut i: usize = 0;
    while i < args.len()
        invariant
            i <= args@.len(),
            forall|j: int| 0 <= j < i ==> #[trigger] args@[j]@ != AUTOSTART_ARG@,
        decreases args@.len() - i,
    {
        if str_equal(args[i].as_str(), AUTOSTART_ARG) {
            return true;
        }
        i = i + 1;
    }
    false
}

/// How the app comes up for a command line.
#[derive(Debug, Clone, Copy, PartialEq, Eq)]
pub struct LaunchPlan {
    /// Launched at login: the window starts hidden.
    pub start_hidden: bool,
    /// The main window is created visible and focused.
    pub show_window: bool,
    /// The saved window state is not applied at creation (it is applied on
    /// the first show instead).
    pub skip_saved_window_state: bool,
    /// The label the toggle item is built with.
    pub toggle_label: ToggleLabel,
}

/// The launch plan for the command line `args`: a launch with `--autostart`
/// starts hidden, skips the saved window state until the first show, and
/// offers to open the window; any other launch shows the window at once.
pub fn launch_plan(args: &Vec<String>) -> (r: LaunchPlan)
    ensures
        r.start_hidden == spec_is_autostart_launch(args@),
        r.show_window == !r.start_hidden,
        r.skip_saved_window_state == r.start_hidden,
        r.toggle_label == (if r.start_hidden {
            ToggleLabel::OpenWhatsApp
        } else {
            ToggleLabel::HideWindow
        }),
{
    let start_hidden = is_autostart_launch(args);
    LaunchPlan {
        start_hidden,
        show_window: !start_hidden,
        skip_saved_window_state: start_hidden,
        toggle_label: initial_toggle_label(start_hidden),
    }
}

/// Each menu item's id leads back to its command, so no two items share one.
pub proof fn lemma_menu_ids_round_trip(command: MenuCommand)
    ensures
        spec_menu_command(spec_menu_item_id(command)) == Some(command),
{
    reveal_strlit("toggle-window");
    reveal_strlit("autostart");
    reveal_strlit("quit");
    assert(MENU_TOGGLE_WINDOW@ != MENU_AUTOSTART@) by {
        assert(MENU_TOGGLE_WINDOW@.len() != MENU_AUTOSTART@.len());
    }
    assert(MENU_TOGGLE_WINDOW@ != MENU_QUIT@) by {
        assert(MENU_TOGGLE_WINDOW@.len() != MENU_QUIT@.len());
    }
    assert(MENU_AUTOSTART@ != MENU_QUIT@) by {
        assert(MENU_AUTOSTART@.len() != MENU_QUIT@.len());
    }
}

/// The menu ids are "toggle-window", "autostart" and "quit", each leading to
/// its own command; any other id leads to none.
pub proof fn lemma_menu_commands_by_id(id: Seq<char>)
    ensures
        spec_menu_item_id(MenuCommand::ToggleWindow) == "toggle-window"@,
        spec_menu_item_id(MenuCommand::ToggleAutostart) == "autostart"@,
        spec_menu_item_id(MenuCommand::Quit) == "quit"@,
        id == "toggle-window"@ ==> spec_menu_command(id) == Some(MenuCommand::ToggleWindow),
        id == "autostart"@ ==> spec_menu_command(id) == Some(MenuCommand::ToggleAutostart),
        id == "quit"@ ==> spec_menu_command(id) == Some(MenuCommand::Quit),
        (id != "toggle-window"@ && id != "autostart"@ && id != "quit"@) ==> spec_menu_command(id)
            is None,
{
    lemma_menu_ids_round_trip(MenuCommand::ToggleWindow);
    lemma_menu_ids_round_trip(MenuCommand::ToggleAutostart);
    lemma_menu_ids_round_trip(MenuCommand::Quit);
}

/// On the icon "main-tray" with the left button, a click on release toggles
/// the window, a double click shows it, and nothing else acts.
pub proof fn lemma_tray_icon_by_event(pointer: TrayPointer, icon_id: Seq<char>, left_button: bool, released: bool)
    ensures
        (icon_id == "main-tray"@ && left_button && pointer == TrayPointer::Click && released)
            ==> spec_tray_icon_action(pointer, icon_id, left_button, released) == Some(
            TrayIconAction::ToggleWindow,
        ),
        (icon_id == "main-tray"@ && left_button && pointer == TrayPointer::DoubleClick)
            ==> spec_tray_icon_action(pointer, icon_id, left_button, released) == Some(
            TrayIconAction::ShowWindow,
        ),
        (icon_id != "main-tray"@ || !left_button || pointer == TrayPointer::Other || (pointer
            == TrayPointer::Click && !released)) ==> spec_tray_icon_action(
            pointer,
            icon_id,
            left_button,
            released,
        ) is None,
{
}

/// A launch is hidden exactly when one of its arguments is "--autostart".
pub proof fn lemma_autostart_launch_by_args(args: Seq<String>)
    ensures
        spec_is_autostart_launch(args) <==> exists|i: int|
            0 <= i < args.len() && #[trigger] args[i]@ == "--autostart"@,
{
}

/// Events on other tray icons, or with another button, never touch the window.
pub proof fn lemma_foreign_tray_events_ignored(
    pointer: TrayPointer,
    icon_id: Seq<char>,
    left_button: bool,
    released: bool,
)
    requires
        icon_id != TRAY_ID@ || !left_button,
    ensures
        spec_tray_icon_action(pointer, icon_id, left_button, released) is None,
{
}

} // verus!
