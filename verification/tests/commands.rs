use wpp_desktop::commands::{
    is_autostart_launch, launch_plan, menu_command, menu_item_id, tray_icon_action,
    MenuCommand, TrayIconAction, TrayPointer,
};
use wpp_desktop::window::ToggleLabel;

fn args(list: &[&str]) -> Vec<String> {
    list.iter().map(|a| a.to_string()).collect()
}

#[test]
fn menu_ids() {
    assert_eq!(menu_item_id(MenuCommand::ToggleWindow), "toggle-window");
    assert_eq!(menu_item_id(MenuCommand::ToggleAutostart), "autostart");
    assert_eq!(menu_item_id(MenuCommand::Quit), "quit");
    assert_eq!(menu_command("quit"), Some(MenuCommand::Quit));
    assert_eq!(menu_command("autostart"), Some(MenuCommand::ToggleAutostart));
    assert_eq!(menu_command("toggle-window"), Some(MenuCommand::ToggleWindow));
    assert_eq!(menu_command("Quit"), None);
    assert_eq!(menu_command(""), None);
}

#[test]
fn menu_ids_round_trip() {
    for c in [MenuCommand::ToggleWindow, MenuCommand::ToggleAutostart, MenuCommand::Quit] {
        assert_eq!(menu_command(menu_item_id(c)), Some(c));
    }
}

#[test]
fn tray_icon_events() {
    assert_eq!(
        tray_icon_action(TrayPointer::Click, "main-tray", true, true),
        Some(TrayIconAction::ToggleWindow)
    );
    assert_eq!(tray_icon_action(TrayPointer::Click, "main-tray", true, false), None);
    assert_eq!(tray_icon_action(TrayPointer::Click, "main-tray", false, true), None);
    assert_eq!(tray_icon_action(TrayPointer::Click, "other", true, true), None);
    assert_eq!(
        tray_icon_action(TrayPointer::DoubleClick, "main-tray", true, false),
        Some(TrayIconAction::ShowWindow)
    );
    assert_eq!(tray_icon_action(TrayPointer::DoubleClick, "other", true, true), None);
    assert_eq!(tray_icon_action(TrayPointer::Other, "main-tray", true, true), None);
}

#[test]
fn autostart_flag_detected() {
    assert!(is_autostart_launch(&args(&["app", "--autostart"])));
    assert!(!is_autostart_launch(&args(&["app"])));
    assert!(!is_autostart_launch(&args(&["app", "--autostart=1"])));
    assert!(!is_autostart_launch(&args(&[])));
}

#[test]
fn launch_plans() {
    let p = launch_plan(&args(&["app", "--autostart"]));
    assert!(p.start_hidden && !p.show_window && p.skip_saved_window_state);
    assert_eq!(p.toggle_label, ToggleLabel::OpenWhatsApp);
    let p = launch_plan(&args(&["app"]));
    assert!(!p.start_hidden && p.show_window && !p.skip_saved_window_state);
    assert_eq!(p.toggle_label, ToggleLabel::HideWindow);
}
