use naphwiki_timeline::account::AuthState;
use naphwiki_timeline::menu::{context_menu, MenuEntry, MenuFacts, MenuId, MenuNode};
use naphwiki_timeline::tracking::WindowTrackingSettings;

fn entry_text(e: &MenuEntry) -> String {
    match e {
        MenuEntry::Item { id, label, enabled } => format!("{}:{}:{}", id.as_str(), label, enabled),
        MenuEntry::Check { id, label, enabled, checked } => {
            format!("{}:{}:{}:{}", id.as_str(), label, enabled, checked)
        }
        MenuEntry::Separator => "-".to_string(),
    }
}

fn menu_text(nodes: &[MenuNode]) -> Vec<String> {
    nodes
        .iter()
        .map(|n| match n {
            MenuNode::Submenu { title, entries } => format!(
                "{}[{}]",
                title,
                entries.iter().map(entry_text).collect::<Vec<_>>().join("|")
            ),
            MenuNode::Entry(e) => entry_text(e),
        })
        .collect()
}

fn facts(windows: bool, supported: bool) -> MenuFacts {
    MenuFacts { windows, capture_exclusion_supported: supported, start_with_windows: false }
}

fn settings() -> WindowTrackingSettings {
    let mut settings = WindowTrackingSettings::new();
    settings.toggle_hide_when_unfocused();
    settings.set_exclude_from_capture(true);
    settings
}

#[test]
fn logged_out_menu_offers_login() {
    let menu = context_menu(&AuthState::default(), &settings(), &facts(false, false));
    assert_eq!(
        menu_text(&menu),
        vec![
            "Account[login:Login:true]",
            "Window behavior[always-on-top:Always on top:true:true]",
            "-",
            "open-naphwiki:Go to Naphwiki.com:true",
            "become-premium:Become a premium supporter:true",
            "-",
            "close:Close:true",
        ]
    );
}

#[test]
fn logged_in_menu_shows_the_cleaned_name() {
    let auth = AuthState { logged_in: true, username: Some("  Naph\u{7}  ".to_string()) };
    let menu = context_menu(&auth, &settings(), &facts(false, false));
    assert_eq!(
        menu_text(&menu)[0],
        "Account[logged-in-as:Logged in as Naph:false|-|timeline-settings:Timeline settings:true|logout:Log out:true]"
    );
    let anonymous = AuthState { logged_in: true, username: Some(" \n ".to_string()) };
    let menu = context_menu(&anonymous, &settings(), &facts(false, false));
    assert!(menu_text(&menu)[0].starts_with("Account[logged-in-as:Logged in:false|"));
}

#[test]
fn windows_menu_has_tracking_capture_and_startup() {
    let menu = context_menu(&AuthState::default(), &settings(), &facts(true, true));
    assert_eq!(
        menu_text(&menu),
        vec![
            "Account[login:Login:true]",
            "Window tracking[attach-window:Attach to window:true|attached-process:Looking for: L2.bin:false|-|hide-when-unfocused:Hide when game is not in focus:true:false]",
            "Window behavior[always-on-top:Always on top:true:true|exclude-from-capture:Exclude from capture:true:true]",
            "Application[start-with-windows:Start with Windows:true:false]",
            "-",
            "open-naphwiki:Go to Naphwiki.com:true",
            "become-premium:Become a premium supporter:true",
            "-",
            "close:Close:true",
        ]
    );
}

#[test]
fn unsupported_capture_exclusion_is_disabled_and_unchecked() {
    let menu = context_menu(&AuthState::default(), &settings(), &facts(true, false));
    assert_eq!(
        menu_text(&menu)[2],
        "Window behavior[always-on-top:Always on top:true:true|exclude-from-capture:Exclude from capture (requires Windows 10 2004+):false:false]"
    );
}

#[test]
fn menu_ids_round_trip() {
    let ids = [
        MenuId::Login,
        MenuId::Logout,
        MenuId::LoggedInAs,
        MenuId::TimelineSettings,
        MenuId::AlwaysOnTop,
        MenuId::HideWhenUnfocused,
        MenuId::ExcludeFromCapture,
        MenuId::AttachWindow,
        MenuId::AttachedProcess,
        MenuId::StartWithWindows,
        MenuId::OpenSite,
        MenuId::BecomePremium,
        MenuId::Close,
    ];
    for id in ids {
        assert!(MenuId::from_id(id.as_str()) == Some(id));
    }
    assert!(MenuId::from_id("open-site").is_none());
    assert!(MenuId::from_id("close") == Some(MenuId::Close));
}

#[test]
fn logged_in_menu_has_no_login_entry() {
    let auth = AuthState { logged_in: true, username: None };
    let menu = context_menu(&auth, &settings(), &facts(true, true));
    let text = menu_text(&menu);
    assert!(text[0].contains("logout:Log out:true"));
    assert!(!text[0].contains("login:Login"));
}

#[test]
fn menu_checks_follow_the_settings() {
    let mut tracking = WindowTrackingSettings::new();
    tracking.toggle_always_on_top();
    let menu = context_menu(&AuthState::default(), &tracking, &facts(true, true));
    let text = menu_text(&menu);
    assert!(text[1].ends_with("hide-when-unfocused:Hide when game is not in focus:true:true]"));
    assert_eq!(
        text[2],
        "Window behavior[always-on-top:Always on top:true:false|exclude-from-capture:Exclude from capture:true:false]"
    );
}
