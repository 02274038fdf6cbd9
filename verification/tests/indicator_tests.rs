use lala_lib::indicator::{
    autostart_label, hotkey_should_toggle, icon_file, menu_action_for, tray_click_action, AppState,
    MenuAction, TrayButton, TrayClickAction,
};

#[test]
fn icon_files_match_states() {
    assert_eq!(icon_file(AppState::Idle), "idle.png");
    assert_eq!(icon_file(AppState::Recording), "recording.png");
    assert_eq!(icon_file(AppState::Transcribing), "transcribing.png");
}

#[test]
fn left_click_down_toggles_recording() {
    assert_eq!(
        tray_click_action(TrayButton::Left, true),
        TrayClickAction::ToggleRecording
    );
}

#[test]
fn right_click_down_shows_menu() {
    assert_eq!(
        tray_click_action(TrayButton::Right, true),
        TrayClickAction::ShowMenu
    );
}

#[test]
fn click_release_and_other_buttons_do_nothing() {
    assert_eq!(
        tray_click_action(TrayButton::Left, false),
        TrayClickAction::Ignore
    );
    assert_eq!(
        tray_click_action(TrayButton::Right, false),
        TrayClickAction::Ignore
    );
    assert_eq!(
        tray_click_action(TrayButton::Other, true),
        TrayClickAction::Ignore
    );
}

#[test]
fn menu_identifiers_map_to_actions() {
    assert_eq!(menu_action_for("open"), MenuAction::OpenWindow);
    assert_eq!(menu_action_for("quit"), MenuAction::Quit);
    assert_eq!(menu_action_for("auto-start"), MenuAction::ToggleAutostart);
    assert_eq!(menu_action_for("mystery"), MenuAction::Unrecognized);
    assert_eq!(menu_action_for(""), MenuAction::Unrecognized);
}

#[test]
fn only_a_registered_hotkey_press_toggles() {
    assert!(hotkey_should_toggle(true, true));
    assert!(!hotkey_should_toggle(true, false));
    assert!(!hotkey_should_toggle(false, true));
    assert!(!hotkey_should_toggle(false, false));
}

#[test]
fn autostart_labels_follow_state() {
    assert_eq!(autostart_label(true), "Disable Auto-start");
    assert_eq!(autostart_label(false), "Enable Auto-start");
}
