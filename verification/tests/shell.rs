use naphwiki_timeline::shell::{
    login_window_action, refresh_is_current, settings_window_action, window_event_action,
    OpenWindowAction, WindowEventAction, WindowEventKind,
};

#[test]
fn closing_settings_hides_then_reloads() {
    assert!(
        window_event_action("timeline-settings", WindowEventKind::CloseRequested)
            == WindowEventAction::HideThenDestroyAndReload
    );
    assert!(
        window_event_action("timeline-settings", WindowEventKind::Destroyed)
            == WindowEventAction::Nothing
    );
    assert!(window_event_action("main", WindowEventKind::CloseRequested) == WindowEventAction::Nothing);
}

#[test]
fn finished_login_reloads_the_timeline() {
    assert!(window_event_action("discord-login", WindowEventKind::Destroyed) == WindowEventAction::ReloadMain);
    assert!(window_event_action("discord-login", WindowEventKind::Other) == WindowEventAction::Nothing);
}

#[test]
fn existing_windows_are_reused() {
    assert!(login_window_action(false) == OpenWindowAction::Create);
    assert!(login_window_action(true) == OpenWindowAction::ShowAndFocus);
    assert!(settings_window_action(false, false) == OpenWindowAction::Create);
    assert!(settings_window_action(true, true) == OpenWindowAction::Focus);
    assert!(settings_window_action(true, false) == OpenWindowAction::Nothing);
}

#[test]
fn only_the_latest_settings_change_reloads() {
    assert!(refresh_is_current(3, 3));
    assert!(!refresh_is_current(2, 3));
}
