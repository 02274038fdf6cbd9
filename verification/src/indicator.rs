//! The visible status of the application and the pure mappings that
//! drive the tray icon and its menu.

use vstd::prelude::*;
use crate::text::str_eq;

verus! {

/// The phase of the recording lifecycle that is currently visible to the
/// user. It is recomputed at every phase transition and pushed to the
/// status indicator; it is never stored on its own.
#[derive(Clone, Copy, Debug, PartialEq, Eq, Structural)]
pub enum AppState {
    Idle,
    Recording,
    Transcribing,
}

/// A mouse button on the status indicator, as far as this library cares.
#[derive(Clone, Copy, Debug, PartialEq, Eq, Structural)]
pub enum TrayButton {
    Left,
    Right,
    Other,
}

/// What a click on the status indicator should do.
#[derive(Clone, Copy, Debug, PartialEq, Eq, Structural)]
pub enum TrayClickAction {
    /// Invoke the toggle entry point of the lifecycle controller.
    ToggleRecording,
    /// Make the indicator menu visible.
    ShowMenu,
    /// Nothing.
    Ignore,
}

/// File name of the indicator icon that shows the given state.
pub fn icon_file(state: AppState) -> (name: &'static str)
    ensures
        state is Idle ==> name@ == "idle.png"@,
        state is Recording ==> name@ == "recording.png"@,
        state is Transcribing ==> name@ == "transcribing.png"@,
{
    match state {
        AppState::Idle => "idle.png",
        AppState::Recording => "recording.png",
        AppState::Transcribing => "transcribing.png",
    }
}

/// Decision taken on a click on the status indicator: only a button-down
/// event does anything; the left button toggles recording and the right
/// button shows the menu.
pub fn tray_click_action(button: TrayButton, is_down: bool) -> (a: TrayClickAction)
    ensures
        a == tray_click_action_spec(button, is_down),
{
    if !is_down {
        TrayClickAction::Ignore
    } else {
        match button {
            TrayButton::Left => TrayClickAction::ToggleRecording,
            TrayButton::Right => TrayClickAction::ShowMenu,
            TrayButton::Other => TrayClickAction::Ignore,
        }
    }
}

/// What `tray_click_action` decides.
pub open spec fn tray_click_action_spec(button: TrayButton, is_down: bool) -> TrayClickAction {
    if !is_down {
        TrayClickAction::Ignore
    } else if button is Left {
        TrayClickAction::ToggleRecording
    } else if button is Right {
        TrayClickAction::ShowMenu
    } else {
        TrayClickAction::Ignore
    }
}

/// What a click on an indicator menu item should do.
#[derive(Clone, Copy, Debug, PartialEq, Eq, Structural)]
pub enum MenuAction {
    /// Show and focus the main window.
    OpenWindow,
    /// Exit the process.
    Quit,
    /// Flip the auto-start setting and restart.
    ToggleAutostart,
    /// An identifier this library does not know; only logged.
    Unrecognized,
}

/// What `menu_action_for` decides for a menu item identifier.
pub open spec fn menu_action_spec(id: Seq<char>) -> MenuAction {
    if id == "open"@ {
        MenuAction::OpenWindow
    } else if id == "quit"@ {
        MenuAction::Quit
    } else if id == "auto-start"@ {
        MenuAction::ToggleAutostart
    } else {
        MenuAction::Unrecognized
    }
}

/// Decision taken on a click on an indicator menu item, by its
/// identifier.
pub fn menu_action_for(id: &str) -> (a: MenuAction)
    ensures
        a == menu_action_spec(id@),
{
    if str_eq(id, "open") {
        MenuAction::OpenWindow
    } else if str_eq(id, "quit") {
        MenuAction::Quit
    } else if str_eq(id, "auto-start") {
        MenuAction::ToggleAutostart
    } else {
        MenuAction::Unrecognized
    }
}

/// Whether a global-hotkey event fires the toggle entry point: only a
/// press of the registered shortcut does; releases and other shortcuts
/// are ignored.
pub fn hotkey_should_toggle(is_registered_shortcut: bool, is_pressed: bool) -> (fire: bool)
    ensures
        fire == (is_registered_shortcut && is_pressed),
{
    is_registered_shortcut && is_pressed
}

/// Label of the auto-start menu item, given whether auto-start is
/// currently enabled.
pub fn autostart_label(enabled: bool) -> (label: &'static str)
    ensures
        enabled ==> label@ == "Disable Auto-start"@,
        !enabled ==> label@ == "Enable Auto-start"@,
{
    if enabled {
        "Disable Auto-start"
    } else {
        "Enable Auto-start"
    }
}

} // verus!
