use naphwiki_timeline::account::{
    event_payload_accepted, normalized_username, AuthState, MAX_USERNAME_CHARS,
};

#[test]
fn username_is_trimmed_and_control_characters_are_removed() {
    assert_eq!(
        normalized_username(Some("  Timeline\nUser\0  ")),
        Some("TimelineUser".to_string())
    );
}

#[test]
fn empty_username_is_omitted() {
    assert_eq!(normalized_username(Some(" \n\0 ")), None);
    assert_eq!(normalized_username(None), None);
}

#[test]
fn username_length_is_limited() {
    let username = "a".repeat(MAX_USERNAME_CHARS + 10);
    assert_eq!(
        normalized_username(Some(&username)),
        Some("a".repeat(MAX_USERNAME_CHARS))
    );
}

#[test]
fn username_limit_counts_characters_after_removing_controls() {
    let username = format!("{}{}", "\u{1}".repeat(10), "é".repeat(70));
    assert_eq!(normalized_username(Some(&username)), Some("é".repeat(64)));
}

#[test]
fn username_trim_happens_after_the_limit() {
    let username = format!("{} b", "a".repeat(63));
    assert_eq!(normalized_username(Some(&username)), Some("a".repeat(63)));
}

#[test]
fn username_keeps_inner_spaces_and_unicode_whitespace_is_trimmed() {
    assert_eq!(
        normalized_username(Some("\u{3000}Naph Wiki\u{a0}")),
        Some("Naph Wiki".to_string())
    );
}

#[test]
fn username_removes_c1_control_characters() {
    assert_eq!(normalized_username(Some("a\u{85}b\u{9f}c")), Some("abc".to_string()));
}

#[test]
fn default_auth_state_is_logged_out() {
    let auth = AuthState::default();
    assert!(!auth.logged_in);
    assert!(auth.username.is_none());
}

#[test]
fn event_payload_limit_is_four_kilobytes() {
    assert!(event_payload_accepted(0));
    assert!(event_payload_accepted(4096));
    assert!(!event_payload_accepted(4097));
}

#[test]
fn normalizing_twice_changes_nothing() {
    let once = normalized_username(Some("  \u{1b}[31mRed\u{1b}[0m Name\t")).expect("name");
    assert_eq!(once, "[31mRed[0m Name");
    assert_eq!(normalized_username(Some(&once)), Some(once.clone()));
}
