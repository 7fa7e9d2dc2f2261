use naphwiki_timeline::updates::{
    next_update_action, update_available_message, version_already_seen, version_history_script,
    version_history_initialization_script, version_history_title, UpdateAction, UpdateEvent,
};

#[test]
fn version_history_is_shown_once_per_version() {
    assert!(version_already_seen(Some("0.2.2\n"), "0.2.2"));
    assert!(version_already_seen(Some("  0.2.2 "), "0.2.2"));
    assert!(!version_already_seen(Some("0.2.1"), "0.2.2"));
    assert!(!version_already_seen(Some("0.2.22"), "0.2.2"));
    assert!(!version_already_seen(None, "0.2.2"));
}

#[test]
fn version_history_title_names_the_version() {
    assert_eq!(version_history_title("0.2.2"), "Naphwiki Timeline 0.2.2 - version history");
}

#[test]
fn version_history_script_writes_the_document() {
    assert_eq!(
        version_history_script("\"<p>x</p>\""),
        "document.addEventListener('DOMContentLoaded',function(){document.open();document.write(\"<p>x</p>\");document.close();},{once:true});"
    );
}

#[test]
fn version_history_document_is_escaped_as_json() {
    let script = version_history_initialization_script().expect("script");
    assert!(script.starts_with(
        "document.addEventListener('DOMContentLoaded',function(){document.open();document.write(\"<!doctype html>\\n<html lang=\\\"en\\\">"
    ));
    assert!(script.ends_with("</html>\");document.close();},{once:true});"));
    assert!(!script.contains("lang=\"en\""));
}

#[test]
fn update_question_names_the_version() {
    assert_eq!(
        update_available_message("0.3.0"),
        "Naphwiki Timeline 0.3.0 is available.\n\nDownload and install it now?"
    );
}

#[test]
fn update_installs_only_after_the_user_agrees() {
    assert!(matches!(next_update_action(UpdateEvent::CheckFailed), UpdateAction::Stop));
    assert!(matches!(next_update_action(UpdateEvent::NoUpdate), UpdateAction::Stop));
    match next_update_action(UpdateEvent::UpdateFound("0.3.0".to_string())) {
        UpdateAction::AskToInstall(message) => assert_eq!(
            message,
            "Naphwiki Timeline 0.3.0 is available.\n\nDownload and install it now?"
        ),
        _ => panic!("expected a question"),
    }
    assert!(matches!(next_update_action(UpdateEvent::Answered(false)), UpdateAction::Stop));
    assert!(matches!(next_update_action(UpdateEvent::Answered(true)), UpdateAction::Install));
    assert!(matches!(next_update_action(UpdateEvent::Installed(true)), UpdateAction::Restart));
    assert!(matches!(next_update_action(UpdateEvent::Installed(false)), UpdateAction::ReportFailure));
}

#[test]
fn json_escapes_match_serde_json() {
    let script = version_history_script(&serde_json::to_string("a\"b\\c\u{1}\u{8}\t\n\u{c}\r\u{1f}\u{7f}é").unwrap());
    assert!(script.contains("document.write(\"a\\\"b\\\\c\\u0001\\b\\t\\n\\f\\r\\u001f\u{7f}é\");"));
}
