use vstd::prelude::*;

verus! {

/// Label of the main window.
pub const MAIN_WINDOW_LABEL: &'static str = "main";

/// Title shown when the page has none.
pub const DEFAULT_WINDOW_TITLE: &'static str = "WhatsApp";

/// A reading of the window that may have failed, taken as `false` when it did.
pub open spec fn observed(reading: Option<bool>) -> bool {
    match reading {
        Some(b) => b,
        None => false,
    }
}

/// The window counts as open when it is visible and not minimized.
pub open spec fn spec_window_is_open(visible: Option<bool>, minimized: Option<bool>) -> bool {
    observed(visible) && !observed(minimized)
}

/// Whether the main window is open, from its visibility and minimized state
/// (a reading that failed counts as `false`).
pub fn window_is_open(visible: Option<bool>, minimized: Option<bool>) -> (r: bool)
    ensures
        r == spec_window_is_open(visible, minimized),
{
    let v = match visible {
        Some(b) => b,
        None => false,
    };
    let m = match minimized {
        Some(b) => b,
        None => false,
    };
    v && !m
}

/// The text of the tray item that shows or hides the window.
#[derive(PartialEq, Eq, Structural, Clone, Copy, Debug)]
pub enum ToggleLabel {
    /// "Abrir WhatsApp": the window is closed and the item opens it.
    OpenWhatsApp,
    /// "Ocultar janela": the window is open and the item hides it.
    HideWindow,
}

impl ToggleLabel {
    pub open spec fn spec_text(self) -> Seq<char> {
        match self {
            ToggleLabel::OpenWhatsApp => "Abrir WhatsApp"@,
            ToggleLabel::HideWindow => "Ocultar janela"@,
        }
    }

    /// The text shown on the menu item.
    pub fn text(&self) -> (r: &'static str)
        ensures
            r@ == self.spec_text(),
    {
        match self {
            ToggleLabel::OpenWhatsApp => "Abrir WhatsApp",
            ToggleLabel::HideWindow => "Ocultar janela",
        }
    }
}

pub open spec fn spec_toggle_label(is_open: bool) -> ToggleLabel {
    if is_open {
        ToggleLabel::HideWindow
    } else {
        ToggleLabel::OpenWhatsApp
    }
}

/// The label of the toggle item for a window that is open or not.
pub fn toggle_label_for(is_open: bool) -> (r: ToggleLabel)
    ensures
        r == spec_toggle_label(is_open),
{
    if is_open {
        ToggleLabel::HideWindow
    } else {
        ToggleLabel::OpenWhatsApp
    }
}

/// The label the toggle item is built with at launch: a launch at login
/// starts with the window hidden.
pub fn initial_toggle_label(start_hidden: bool) -> (r: ToggleLabel)
    ensures
        r == (if start_hidden {
            ToggleLabel::OpenWhatsApp
        } else {
            ToggleLabel::HideWindow
        }),
{
    if start_hidden {
        ToggleLabel::OpenWhatsApp
    } else {
        ToggleLabel::HideWindow
    }
}

/// What the tray menu shows.
#[derive(Debug, Clone, Copy, PartialEq, Eq)]
pub struct TrayControls {
    pub toggle_label: ToggleLabel,
    pub autostart_checked: bool,
}

/// The tray menu for the observed window and launch-at-login state: the
/// toggle item names what it will do, the check item shows whether the app
/// starts with the system (a reading that failed counts as `false`).
pub fn tray_controls(
    visible: Option<bool>,
    minimized: Option<bool>,
    autostart_enabled: Option<bool>,
) -> (r: TrayControls)
    ensures
        r.toggle_label == spec_toggle_label(spec_window_is_open(visible, minimized)),
        r.autostart_checked == observed(autostart_enabled),
{
    let is_open = window_is_open(visible, minimized);
    let checked = match autostart_enabled {
        Some(b) => b,
        None => false,
    };
    TrayControls { toggle_label: toggle_label_for(is_open), autostart_checked: checked }
}

/// What a toggle of the main window does.
#[derive(PartialEq, Eq, Structural, Clone, Copy, Debug)]
pub enum WindowCommand {
    Show,
    Hide,
}

pub open spec fn spec_toggle_command(visible: Option<bool>, minimized: Option<bool>) -> WindowCommand {
    if !observed(visible) || observed(minimized) {
        WindowCommand::Show
    } else {
        WindowCommand::Hide
    }
}

/// A toggle shows the window when it is hidden or minimized, and hides it
/// otherwise (a reading that failed counts as `false`).
pub fn toggle_command(visible: Option<bool>, minimized: Option<bool>) -> (r: WindowCommand)
    ensures
        r == spec_toggle_command(visible, minimized),
{
    let v = match visible {
        Some(b) => b,
        None => false,
    };
    let m = match minimized {
        Some(b) => b,
        None => false,
    };
    if !v || m {
        WindowCommand::Show
    } else {
        WindowCommand::Hide
    }
}

/// Whether the saved window geometry is still to be restored, and what a show
/// of the window does to that: it restores once, then never again.
pub open spec fn spec_take_restore(pending: bool) -> (bool, bool) {
    (pending, false)
}

/// The number of restores that `shows` successive shows perform.
pub open spec fn restores_over(pending: bool, shows: nat) -> nat
    decreases shows,
{
    if shows == 0 {
        0
    } else {
        let (restore, next) = spec_take_restore(pending);
        (if restore {
            1nat
        } else {
            0nat
        }) + restores_over(next, (shows - 1) as nat)
    }
}

/// The saved window geometry is restored on the first show of a window that
/// started hidden (its initial state was skipped at launch).
#[derive(Debug)]
pub struct FirstShowRestore {
    pending: bool,
}

impl FirstShowRestore {
    pub closed spec fn pending(&self) -> bool {
        self.pending
    }

    /// A launch that starts hidden restores the saved geometry on first show.
    pub fn new(start_hidden: bool) -> (r: Self)
        ensures
            r.pending() == start_hidden,
    {
        FirstShowRestore { pending: start_hidden }
    }

    /// Called on each show: whether to restore the saved geometry now.
    pub fn take_restore(&mut self) -> (r: bool)
        ensures
            (r, final(self).pending()) == spec_take_restore(old(self).pending()),
    {
        let r = self.pending;
        self.pending = false;
        r
    }
}

pub open spec fn spec_window_title(title: Seq<char>) -> Seq<char> {
    if title.len() == 0 {
        DEFAULT_WINDOW_TITLE@
    } else {
        title
    }
}

/// The title given to the window for the page title `title`: the page's own,
/// or "WhatsApp" when it is empty.
pub fn window_title_for<'a>(title: &'a str) -> (r: &'a str)
    ensures
        r@ == spec_window_title(title@),
{
    if title.is_empty() {
        DEFAULT_WINDOW_TITLE
    } else {
        title
    }
}

/// The change that a click on the launch-at-login item asks for.
#[derive(PartialEq, Eq, Structural, Clone, Copy, Debug)]
pub enum AutostartChange {
    Enable,
    Disable,
}

impl AutostartChange {
    /// Whether launch at login is on once the change is made.
    pub open spec fn enabled_after(self) -> bool {
        self == AutostartChange::Enable
    }
}

pub open spec fn spec_autostart_change(enabled: Option<bool>) -> AutostartChange {
    if observed(enabled) {
        AutostartChange::Disable
    } else {
        AutostartChange::Enable
    }
}

/// A click on the launch-at-login item turns it off when it is observed on,
/// and on otherwise (a reading that failed counts as off).
pub fn autostart_change(enabled: Option<bool>) -> (r: AutostartChange)
    ensures
        r == spec_autostart_change(enabled),
{
    match enabled {
        Some(true) => AutostartChange::Disable,
        _ => AutostartChange::Enable,
    }
}

/// The notification permission as the platform reports it.
#[derive(PartialEq, Eq, Structural, Clone, Copy, Debug)]
pub enum NotificationPermission {
    Granted,
    Denied,
    Prompt,
    PromptWithRationale,
}

/// Permission is asked for only while the platform would still prompt.
pub fn should_request_notification_permission(state: NotificationPermission) -> (r: bool)
    ensures
        r == (state == NotificationPermission::Prompt || state
            == NotificationPermission::PromptWithRationale),
{
    match state {
        NotificationPermission::Prompt | NotificationPermission::PromptWithRationale => true,
        NotificationPermission::Granted | NotificationPermission::Denied => false,
    }
}

/// The toggle item always names what a toggle will do: it reads "Abrir
/// WhatsApp" exactly when a toggle would show the window.
pub proof fn lemma_toggle_label_names_toggle(visible: Option<bool>, minimized: Option<bool>)
    ensures
        (spec_toggle_label(spec_window_is_open(visible, minimized)) == ToggleLabel::OpenWhatsApp)
            <==> (spec_toggle_command(visible, minimized) == WindowCommand::Show),
{
}

/// The label built at launch is the one the tray shows for the window as it
/// starts: visible and not minimized, unless the launch is hidden.
pub proof fn lemma_initial_label_matches_window(start_hidden: bool)
    ensures
        spec_toggle_label(spec_window_is_open(Some(!start_hidden), Some(false))) == (if start_hidden {
            ToggleLabel::OpenWhatsApp
        } else {
            ToggleLabel::HideWindow
        }),
{
}

/// However many times the window is shown, the saved geometry is restored
/// once if it was pending and never otherwise.
pub proof fn lemma_restore_at_most_once(pending: bool, shows: nat)
    ensures
        restores_over(pending, shows) == (if pending && shows > 0 {
            1nat
        } else {
            0nat
        }),
    decreases shows,
{
    if shows > 0 {
        lemma_restore_at_most_once(false, (shows - 1) as nat);
    }
}

/// A click on the launch-at-login item asks for the state opposite to the one
/// its check mark shows, for the same reading of the platform.
pub proof fn lemma_autostart_click_flips_check(enabled: Option<bool>)
    ensures
        spec_autostart_change(enabled).enabled_after() == !observed(enabled),
{
}

/// The window title is never empty, and a title the app set is kept as is.
pub proof fn lemma_title_never_empty(title: Seq<char>)
    ensures
        spec_window_title(title).len() > 0,
        spec_window_title(spec_window_title(title)) == spec_window_title(title),
{
    reveal_strlit("WhatsApp");
}

/// The window counts as open exactly when it is observed visible and not
/// observed minimized, and a toggle shows it exactly when it is not observed
/// visible or is observed minimized (a failed reading observes nothing).
pub proof fn lemma_toggle_shows_closed_windows(visible: Option<bool>, minimized: Option<bool>)
    ensures
        spec_window_is_open(visible, minimized) <==> (visible == Some(true) && minimized != Some(
            true,
        )),
        (spec_toggle_command(visible, minimized) == WindowCommand::Show) <==> (visible != Some(true)
            || minimized == Some(true)),
        (spec_toggle_command(visible, minimized) == WindowCommand::Hide) <==> (visible == Some(true)
            && minimized != Some(true)),
{
}

/// A reading counts only when it succeeded and said `true`.
pub proof fn lemma_observed_reading(reading: Option<bool>)
    ensures
        observed(reading) <==> reading == Some(true),
{
}

/// The toggle item reads "Ocultar janela" for an open window and "Abrir
/// WhatsApp" for a closed one, and the launch-at-login check mark shows a
/// reading of `true` only.
pub proof fn lemma_tray_texts(is_open: bool, visible: Option<bool>, minimized: Option<bool>, enabled: Option<bool>)
    ensures
        spec_toggle_label(is_open).spec_text() == (if is_open {
            "Ocultar janela"@
        } else {
            "Abrir WhatsApp"@
        }),
        spec_toggle_label(spec_window_is_open(visible, minimized)).spec_text() == (if visible == Some(true) && minimized != Some(true) {
            "Ocultar janela"@
        } else {
            "Abrir WhatsApp"@
        }),
        observed(enabled) == (enabled == Some(true)),
{
}

/// A click on the launch-at-login item turns it off when the platform reports
/// it on, and on when it reports it off or the reading failed.
pub proof fn lemma_autostart_click_by_reading(enabled: Option<bool>)
    ensures
        enabled == Some(true) ==> spec_autostart_change(enabled) == AutostartChange::Disable,
        enabled != Some(true) ==> spec_autostart_change(enabled) == AutostartChange::Enable,
{
}

/// A non-empty page title becomes the window title unchanged; an empty one
/// gives "WhatsApp".
pub proof fn lemma_page_title_kept(title: Seq<char>)
    ensures
        title.len() > 0 ==> spec_window_title(title) == title,
        title.len() == 0 ==> spec_window_title(title) == "WhatsApp"@,
{
}

} // verus!
