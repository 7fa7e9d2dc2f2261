use naphwiki_timeline::sound::{
    check_selected_sound, ensure_read_access, extension_of_file_name, removal_tolerated,
    require_stored_sound, ensure_write_access, remove_if_present,
    sound_format, sound_format_for_extension, stored_sound_sizes_ok, validate_stored_sound,
    CustomNotificationSoundInfo, FileFacts, RemovalOutcome, MAX_SOUND_BYTES,
};

fn info(name: &str, mime_type: &str, size_bytes: u64) -> CustomNotificationSoundInfo {
    CustomNotificationSoundInfo {
        name: name.to_string(),
        mime_type: mime_type.to_string(),
        size_bytes,
    }
}

fn facts(is_file: bool, len: u64) -> Option<FileFacts> {
    Some(FileFacts { is_file, len })
}

fn error_of(result: Result<naphwiki_timeline::sound::SelectedSound, String>) -> String {
    match result {
        Ok(_) => panic!("expected an error"),
        Err(message) => message,
    }
}

#[test]
fn supported_sound_extensions_are_case_insensitive() {
    assert_eq!(sound_format("alert.MP3"), Some("audio/mpeg"));
    assert_eq!(sound_format("alert.WaV"), Some("audio/wav"));
    assert_eq!(sound_format("alert.opus"), Some("audio/ogg"));
}

#[test]
fn unsupported_sound_extensions_are_rejected() {
    assert_eq!(sound_format("alert.exe"), None);
    assert_eq!(sound_format("alert"), None);
}

#[test]
fn every_supported_extension_has_its_type() {
    assert_eq!(sound_format("a.ogg"), Some("audio/ogg"));
    assert_eq!(sound_format("a.M4A"), Some("audio/mp4"));
    assert_eq!(sound_format("a.aac"), Some("audio/aac"));
    assert_eq!(sound_format("a.Flac"), Some("audio/flac"));
    assert_eq!(sound_format(".mp3"), None);
    assert_eq!(sound_format("..mp3"), Some("audio/mpeg"));
    assert_eq!(sound_format("alert.mp3.exe"), None);
    assert_eq!(sound_format("alert.exe.mp3"), Some("audio/mpeg"));
    assert_eq!(sound_format("alert."), None);
    assert_eq!(sound_format_for_extension(Some("mP3")), Some("audio/mpeg"));
    assert_eq!(sound_format_for_extension(Some("mp")), None);
    assert_eq!(sound_format_for_extension(None), None);
}

#[test]
fn sound_access_depends_on_the_window() {
    assert!(ensure_read_access("main").is_ok());
    assert!(ensure_read_access("timeline-settings").is_ok());
    assert_eq!(
        ensure_read_access("discord-login"),
        Err("This window cannot access notification sounds.".to_string())
    );
    assert!(ensure_write_access("timeline-settings").is_ok());
    assert_eq!(
        ensure_write_access("main"),
        Err("Notification sounds can only be changed from Timeline settings.".to_string())
    );
}

#[test]
fn stored_sound_sizes_are_limited() {
    assert!(stored_sound_sizes_ok(1, 1));
    assert!(stored_sound_sizes_ok(MAX_SOUND_BYTES, 4096));
    assert!(!stored_sound_sizes_ok(0, 10));
    assert!(!stored_sound_sizes_ok(MAX_SOUND_BYTES + 1, 10));
    assert!(!stored_sound_sizes_ok(10, 0));
    assert!(!stored_sound_sizes_ok(10, 4097));
}

#[test]
fn stored_sound_is_validated() {
    let valid = validate_stored_sound(info("alert.mp3", "audio/mpeg", 1), 1234).expect("valid");
    assert_eq!(valid.name, "alert.mp3");
    assert_eq!(valid.mime_type, "audio/mpeg");
    assert_eq!(valid.size_bytes, 1234);
    assert!(validate_stored_sound(info("  ", "audio/mpeg", 1), 10).is_none());
    assert!(validate_stored_sound(info(&"a".repeat(256), "audio/mpeg", 1), 10).is_none());
    assert!(validate_stored_sound(info(&"a".repeat(255), "audio/mpeg", 1), 10).is_some());
    assert!(validate_stored_sound(info("alert.exe", "application/x-msdownload", 1), 10).is_none());
}

#[test]
fn selected_sound_checks_come_in_order() {
    assert_eq!(
        error_of(check_selected_sound(false, None, None, None)),
        "Only local audio files can be selected."
    );
    assert_eq!(
        error_of(check_selected_sound(true, None, facts(true, 10), Some("a.exe"))),
        "Choose an MP3, WAV, OGG, OPUS, M4A, AAC, or FLAC file."
    );
    assert_eq!(
        error_of(check_selected_sound(true, Some("audio/wav"), None, Some("a.wav"))),
        "The selected sound could not be read."
    );
    assert_eq!(
        error_of(check_selected_sound(true, Some("audio/wav"), facts(false, 10), Some("a.wav"))),
        "The selected sound is empty or invalid."
    );
    assert_eq!(
        error_of(check_selected_sound(true, Some("audio/wav"), facts(true, 0), Some("a.wav"))),
        "The selected sound is empty or invalid."
    );
    assert_eq!(
        error_of(check_selected_sound(
            true,
            Some("audio/wav"),
            facts(true, MAX_SOUND_BYTES + 1),
            Some("a.wav")
        )),
        "The selected sound is larger than 10 MB."
    );
    assert_eq!(
        error_of(check_selected_sound(true, Some("audio/wav"), facts(true, 10), None)),
        "The selected sound has an invalid file name."
    );
    assert_eq!(
        error_of(check_selected_sound(true, Some("audio/wav"), facts(true, 10), Some(" "))),
        "The selected sound has an invalid file name."
    );
}

#[test]
fn selected_sound_becomes_its_description() {
    let selected = check_selected_sound(true, sound_format("ding.WAV"), facts(true, MAX_SOUND_BYTES), Some("ding.WAV"))
        .expect("accepted");
    assert_eq!(selected.name, "ding.WAV");
    assert_eq!(selected.mime_type, "audio/wav");
    let info = selected.into_info(99);
    assert_eq!(info.name, "ding.WAV");
    assert_eq!(info.mime_type, "audio/wav");
    assert_eq!(info.size_bytes, 99);
}

#[test]
fn removing_a_missing_file_succeeds() {
    assert_eq!(remove_if_present(RemovalOutcome::Removed), Ok(()));
    assert_eq!(remove_if_present(RemovalOutcome::NotFound), Ok(()));
    assert_eq!(
        remove_if_present(RemovalOutcome::Failed),
        Err("The stored notification sound could not be removed.".to_string())
    );
}

#[test]
fn only_failed_removals_are_errors() {
    assert!(removal_tolerated(RemovalOutcome::Removed));
    assert!(removal_tolerated(RemovalOutcome::NotFound));
    assert!(!removal_tolerated(RemovalOutcome::Failed));
}

#[test]
fn file_name_extension_matches_std() {
    for name in ["alert.MP3", "alert", ".bashrc", "..", ".", "a.", "a.b.c", "..x", "x..", ""] {
        let expected = std::path::Path::new(name)
            .extension()
            .map(|e| e.to_str().expect("utf8").to_string());
        assert_eq!(extension_of_file_name(name), expected, "{name:?}");
    }
}

#[test]
fn reading_needs_a_stored_sound() {
    assert_eq!(require_stored_sound(&Some(info("a.mp3", "audio/mpeg", 3))), Ok(()));
    assert_eq!(
        require_stored_sound(&None),
        Err("No valid custom notification sound is stored.".to_string())
    );
}
