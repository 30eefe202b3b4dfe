use wpp_desktop::window::{
    autostart_change, initial_toggle_label, should_request_notification_permission,
    toggle_command, toggle_label_for, tray_controls, window_is_open, window_title_for,
    AutostartChange, FirstShowRestore, NotificationPermission, ToggleLabel, WindowCommand,
};

#[test]
fn open_means_visible_and_not_minimized() {
    assert!(window_is_open(Some(true), Some(false)));
    assert!(window_is_open(Some(true), None));
    assert!(!window_is_open(Some(true), Some(true)));
    assert!(!window_is_open(Some(false), Some(false)));
    assert!(!window_is_open(None, None));
}

#[test]
fn toggle_shows_hidden_or_minimized_windows() {
    assert_eq!(toggle_command(Some(false), Some(false)), WindowCommand::Show);
    assert_eq!(toggle_command(Some(true), Some(true)), WindowCommand::Show);
    assert_eq!(toggle_command(None, None), WindowCommand::Show);
    assert_eq!(toggle_command(Some(true), Some(false)), WindowCommand::Hide);
    assert_eq!(toggle_command(Some(true), None), WindowCommand::Hide);
}

#[test]
fn labels_and_texts() {
    assert_eq!(toggle_label_for(true), ToggleLabel::HideWindow);
    assert_eq!(toggle_label_for(false), ToggleLabel::OpenWhatsApp);
    assert_eq!(ToggleLabel::OpenWhatsApp.text(), "Abrir WhatsApp");
    assert_eq!(ToggleLabel::HideWindow.text(), "Ocultar janela");
    assert_eq!(initial_toggle_label(true), ToggleLabel::OpenWhatsApp);
    assert_eq!(initial_toggle_label(false), ToggleLabel::HideWindow);
}

#[test]
fn label_names_what_toggle_does() {
    for v in [None, Some(false), Some(true)] {
        for m in [None, Some(false), Some(true)] {
            let label = tray_controls(v, m, None).toggle_label;
            let opens = toggle_command(v, m) == WindowCommand::Show;
            assert_eq!(label == ToggleLabel::OpenWhatsApp, opens);
        }
    }
}

#[test]
fn tray_controls_reflect_state() {
    let c = tray_controls(Some(true), Some(false), Some(true));
    assert_eq!(c.toggle_label, ToggleLabel::HideWindow);
    assert!(c.autostart_checked);
    let c = tray_controls(Some(false), None, None);
    assert_eq!(c.toggle_label, ToggleLabel::OpenWhatsApp);
    assert!(!c.autostart_checked);
}

#[test]
fn saved_state_restored_once() {
    let mut r = FirstShowRestore::new(true);
    assert!(r.take_restore());
    assert!(!r.take_restore());
    assert!(!r.take_restore());
    let mut r = FirstShowRestore::new(false);
    assert!(!r.take_restore());
}

#[test]
fn window_titles() {
    assert_eq!(window_title_for(""), "WhatsApp");
    assert_eq!(window_title_for("(3) WhatsApp"), "(3) WhatsApp");
    assert_eq!(window_title_for(window_title_for("")), "WhatsApp");
}

#[test]
fn autostart_click_flips() {
    assert_eq!(autostart_change(Some(true)), AutostartChange::Disable);
    assert_eq!(autostart_change(Some(false)), AutostartChange::Enable);
    assert_eq!(autostart_change(None), AutostartChange::Enable);
    for e in [None, Some(false), Some(true)] {
        let checked = tray_controls(None, None, e).autostart_checked;
        assert_eq!(autostart_change(e) == AutostartChange::Enable, !checked);
    }
}

#[test]
fn notification_permission_asked_only_when_prompting() {
    assert!(should_request_notification_permission(NotificationPermission::Prompt));
    assert!(should_request_notification_permission(NotificationPermission::PromptWithRationale));
    assert!(!should_request_notification_permission(NotificationPermission::Granted));
    assert!(!should_request_notification_permission(NotificationPermission::Denied));
}
