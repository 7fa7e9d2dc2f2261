use naphwiki_timeline::tracking::{
    attach_in_range, effective_topmost, is_valid_process_name, overlay_move_target,
    tracking_settings_size_ok, tracking_status_label, tracking_step_in_range,
    update_tracked_position, AttachedWindow, PersistedWindowTracking, SelectionState,
    TrackedPlacement, WindowTrackingSettings, DEFAULT_TARGET_PROCESS,
};
use naphwiki_timeline::window::{NativeRect, WindowCandidate};
use std::path::PathBuf;

fn rect(left: i32, top: i32) -> NativeRect {
    NativeRect { left, top, right: left + 100, bottom: top + 50 }
}

fn candidate(handle: isize, process_id: u32, name: &str) -> WindowCandidate {
    WindowCandidate { handle, process_id, process_name: name.to_string() }
}

fn attached_window(offset: (i32, i32), target: (i32, i32)) -> AttachedWindow {
    AttachedWindow {
        handle: 7,
        process_id: 70,
        process_name: "L2.bin".to_string(),
        offset,
        last_target_position: target,
        last_overlay_position: (target.0 + offset.0, target.1 + offset.1),
    }
}

fn placement(p: TrackedPlacement) -> ((i32, i32), (i32, i32), (i32, i32)) {
    (p.offset, p.target_position, p.overlay_position)
}

#[test]
fn focus_setting_only_suppresses_always_on_top_while_unfocused() {
    assert!(effective_topmost(true, true, true));
    assert!(!effective_topmost(true, true, false));
    assert!(effective_topmost(true, false, false));
    assert!(!effective_topmost(false, false, true));
    assert!(!effective_topmost(false, true, true));
}

#[test]
fn remembered_process_name_must_be_safe_and_nonempty() {
    assert!(is_valid_process_name("L2.bin"));
    assert!(!is_valid_process_name(""));
    assert!(!is_valid_process_name("L2.bin\n"));
    assert!(!is_valid_process_name(&"a".repeat(261)));
}

#[test]
fn process_name_limit_counts_utf8_bytes() {
    assert!(is_valid_process_name(&"a".repeat(260)));
    assert!(is_valid_process_name(&"é".repeat(130)));
    assert!(!is_valid_process_name(&"é".repeat(131)));
    assert!(!is_valid_process_name(" \u{3000} "));
}

#[test]
fn new_settings_look_for_the_default_process() {
    let settings = WindowTrackingSettings::new();
    assert!(settings.always_on_top);
    assert!(settings.hide_when_unfocused);
    assert!(!settings.exclude_from_capture);
    assert_eq!(settings.preferred_process, DEFAULT_TARGET_PROCESS);
    assert!(settings.target.is_none());
    assert!(settings.selection == SelectionState::Idle);
    assert_eq!(tracking_status_label(&settings), "Looking for: L2.bin");
    let defaults = WindowTrackingSettings::default();
    assert_eq!(defaults.preferred_process, "L2.bin");
}

#[test]
fn configure_takes_remembered_settings() {
    let mut settings = WindowTrackingSettings::new();
    let persisted = PersistedWindowTracking {
        preferred_process: "game.exe".to_string(),
        offset: Some((48, -12)),
        exclude_from_capture: true,
    };
    settings.configure(Some(persisted), Some(PathBuf::from("settings.json")), true);
    assert_eq!(settings.preferred_process, "game.exe");
    assert_eq!(settings.remembered_offset, Some((48, -12)));
    assert!(settings.exclude_from_capture);
    assert_eq!(settings.persistence_path, Some(PathBuf::from("settings.json")));
    assert!(settings.background_mode);
}

#[test]
fn configure_rejects_an_invalid_remembered_process() {
    let mut settings = WindowTrackingSettings::new();
    let persisted = PersistedWindowTracking {
        preferred_process: "bad\nname".to_string(),
        offset: None,
        exclude_from_capture: false,
    };
    settings.configure(Some(persisted), None, false);
    assert_eq!(settings.preferred_process, "L2.bin");
    assert_eq!(settings.remembered_offset, None);
}

#[test]
fn configure_without_a_file_keeps_the_settings() {
    let mut settings = WindowTrackingSettings::new();
    settings.configure(None, None, true);
    assert_eq!(settings.preferred_process, "L2.bin");
    assert!(settings.background_mode);
    assert!(!settings.exclude_from_capture);
}

#[test]
fn persisted_settings_round_trip_through_configure() {
    let mut saved = WindowTrackingSettings::new();
    saved.configure(
        Some(PersistedWindowTracking {
            preferred_process: "L2.bin".to_string(),
            offset: Some((48, -12)),
            exclude_from_capture: true,
        }),
        None,
        false,
    );
    let mut restored = WindowTrackingSettings::new();
    restored.configure(Some(saved.persisted()), None, false);
    assert_eq!(restored.preferred_process, "L2.bin");
    assert_eq!(restored.remembered_offset, Some((48, -12)));
    assert!(restored.exclude_from_capture);
}

#[test]
fn toggling_always_on_top_twice_restores_it() {
    let mut settings = WindowTrackingSettings::new();
    settings.topmost_applied(true);
    assert!(!settings.toggle_always_on_top());
    assert_eq!(settings.actual_topmost, None);
    assert!(settings.toggle_always_on_top());
    assert!(settings.always_on_top);
}

#[test]
fn toggling_hide_when_unfocused_forgets_the_applied_state() {
    let mut settings = WindowTrackingSettings::new();
    settings.topmost_applied(false);
    settings.toggle_hide_when_unfocused();
    assert!(!settings.hide_when_unfocused);
    assert_eq!(settings.actual_topmost, None);
    settings.toggle_hide_when_unfocused();
    assert!(settings.hide_when_unfocused);
}

#[test]
fn selection_prompt_opens_once() {
    let mut settings = WindowTrackingSettings::new();
    assert!(settings.request_selection());
    assert_eq!(tracking_status_label(&settings), "Choose a window in the open prompt");
    assert!(!settings.request_selection());
    settings.selection_prompt_closed(true);
    assert_eq!(tracking_status_label(&settings), "Click a window to attach");
    assert!(!settings.request_selection());
    settings.selection_prompt_closed(false);
    assert!(settings.selection == SelectionState::Idle);
    assert!(settings.request_selection());
}

#[test]
fn attach_records_offset_and_name() {
    let mut settings = WindowTrackingSettings::new();
    settings.topmost_applied(true);
    settings.attach(candidate(5, 50, "game.exe"), Some(rect(100, 200)), Some(rect(148, 188)));
    let target = settings.target.as_ref().expect("attached");
    assert_eq!(target.handle, 5);
    assert_eq!(target.process_id, 50);
    assert_eq!(target.offset, (48, -12));
    assert_eq!(target.last_target_position, (100, 200));
    assert_eq!(target.last_overlay_position, (148, 188));
    assert_eq!(settings.preferred_process, "game.exe");
    assert_eq!(settings.actual_topmost, None);
    assert_eq!(tracking_status_label(&settings), "Attached to: game.exe");
    assert_eq!(settings.target_identity(), Some((5, 50)));
}

#[test]
fn attach_without_rectangles_changes_nothing() {
    let mut settings = WindowTrackingSettings::new();
    settings.attach(candidate(5, 50, "game.exe"), None, Some(rect(0, 0)));
    assert!(settings.target.is_none());
    assert_eq!(settings.preferred_process, "L2.bin");
}

#[test]
fn attach_range_check_detects_overflow() {
    assert!(attach_in_range(Some(rect(0, 0)), Some(rect(10, 10))));
    assert!(!attach_in_range(Some(rect(i32::MIN, 0)), Some(rect(10, 10))));
    assert!(attach_in_range(None, Some(rect(i32::MIN, 0))));
}

#[test]
fn foreground_selection_attaches_only_when_armed() {
    let mut settings = WindowTrackingSettings::new();
    settings.select_foreground_window(candidate(9, 90, "other.exe"), Some(rect(0, 0)), Some(rect(5, 5)));
    assert!(settings.target.is_none());
    settings.request_selection();
    settings.selection_prompt_closed(true);
    settings.select_foreground_window(candidate(9, 90, "other.exe"), Some(rect(0, 0)), Some(rect(5, 5)));
    assert_eq!(settings.target_identity(), Some((9, 90)));
    assert!(settings.selection == SelectionState::Idle);
}

#[test]
fn armed_selection_ends_even_when_the_window_vanished() {
    let mut settings = WindowTrackingSettings::new();
    settings.request_selection();
    settings.selection_prompt_closed(true);
    settings.select_foreground_window(candidate(9, 90, "other.exe"), None, Some(rect(5, 5)));
    assert!(settings.target.is_none());
    assert!(settings.selection == SelectionState::Idle);
}

#[test]
fn preferred_window_is_adopted_only_when_unattached_and_unchanged() {
    let mut settings = WindowTrackingSettings::new();
    settings.adopt_preferred_window("l2.BIN", candidate(3, 30, "L2.bin"), Some(rect(0, 0)), Some(rect(1, 1)));
    assert_eq!(settings.target_identity(), Some((3, 30)));
    settings.adopt_preferred_window("L2.bin", candidate(4, 40, "L2.bin"), Some(rect(0, 0)), Some(rect(1, 1)));
    assert_eq!(settings.target_identity(), Some((3, 30)));
    let mut other = WindowTrackingSettings::new();
    other.adopt_preferred_window("game.exe", candidate(4, 40, "game.exe"), Some(rect(0, 0)), Some(rect(1, 1)));
    assert!(other.target.is_none());
}

#[test]
fn validation_drops_a_closed_or_reused_window() {
    let mut settings = WindowTrackingSettings::new();
    settings.attach(candidate(5, 50, "game.exe"), Some(rect(0, 0)), Some(rect(1, 1)));
    settings.validate_target(5, 50, true, Some(50));
    assert_eq!(settings.target_identity(), Some((5, 50)));
    settings.validate_target(6, 50, false, None);
    assert_eq!(settings.target_identity(), Some((5, 50)));
    settings.topmost_applied(true);
    settings.validate_target(5, 50, true, Some(51));
    assert!(settings.target.is_none());
    assert_eq!(settings.actual_topmost, None);
    assert_eq!(tracking_status_label(&settings), "Looking for: game.exe");

    let mut closed = WindowTrackingSettings::new();
    closed.attach(candidate(5, 50, "game.exe"), Some(rect(0, 0)), Some(rect(1, 1)));
    closed.validate_target(5, 50, false, Some(50));
    assert!(closed.target.is_none());
}

#[test]
fn overlay_follows_the_moved_window() {
    let w = attached_window((48, -12), (100, 200));
    assert!(tracking_step_in_range(&w, (110, 230), (148, 188)));
    assert_eq!(overlay_move_target(&w, (110, 230), (148, 188)), Some((158, 218)));
    let moved = update_tracked_position(&w, (110, 230), (148, 188), true);
    assert_eq!(placement(moved), ((48, -12), (110, 230), (158, 218)));
    let failed = update_tracked_position(&w, (110, 230), (148, 188), false);
    assert_eq!(placement(failed), ((48, -12), (100, 200), (148, 188)));
}

#[test]
fn overlay_already_in_place_needs_no_move() {
    let w = attached_window((48, -12), (100, 200));
    assert_eq!(overlay_move_target(&w, (110, 230), (158, 218)), None);
    let p = update_tracked_position(&w, (110, 230), (158, 218), false);
    assert_eq!(placement(p), ((48, -12), (110, 230), (158, 218)));
}

#[test]
fn dragging_the_overlay_changes_the_offset() {
    let w = attached_window((48, -12), (100, 200));
    assert_eq!(overlay_move_target(&w, (100, 200), (300, 300)), None);
    let p = update_tracked_position(&w, (100, 200), (300, 300), false);
    assert_eq!(placement(p), ((200, 100), (100, 200), (300, 300)));
}

#[test]
fn tracking_at_rest_changes_nothing() {
    let w = attached_window((48, -12), (100, 200));
    assert_eq!(overlay_move_target(&w, (100, 200), (148, 188)), None);
    let p = update_tracked_position(&w, (100, 200), (148, 188), false);
    assert_eq!(placement(p), ((48, -12), (100, 200), (148, 188)));
}

#[test]
fn tracking_range_check_detects_overflow() {
    let w = attached_window((10, 0), (0, 0));
    assert!(!tracking_step_in_range(&w, (i32::MAX, 0), (10, 0)));
    let v = attached_window((0, 0), (-10, 0));
    assert!(!tracking_step_in_range(&v, (-10, 0), (i32::MAX, 0)));
}

#[test]
fn stored_placement_applies_only_to_the_same_window() {
    let mut settings = WindowTrackingSettings::new();
    settings.attach(candidate(5, 50, "game.exe"), Some(rect(0, 0)), Some(rect(10, 10)));
    let p = TrackedPlacement { offset: (20, 20), target_position: (0, 0), overlay_position: (20, 20) };
    settings.store_tracked_position(5, 51, p);
    assert_eq!(settings.target.as_ref().unwrap().offset, (10, 10));
    settings.store_tracked_position(5, 50, p);
    let target = settings.target.as_ref().unwrap();
    assert_eq!(target.offset, (20, 20));
    assert_eq!(target.last_overlay_position, (20, 20));
}

#[test]
fn topmost_is_applied_once() {
    let mut settings = WindowTrackingSettings::new();
    settings.attach(candidate(5, 50, "game.exe"), Some(rect(0, 0)), Some(rect(10, 10)));
    assert_eq!(settings.update_topmost(false, Some(50)), Some(true));
    settings.topmost_applied(true);
    assert_eq!(settings.update_topmost(false, Some(50)), None);
    assert_eq!(settings.update_topmost(false, Some(60)), Some(false));
    assert_eq!(settings.update_topmost(true, Some(50)), Some(false));
    settings.toggle_hide_when_unfocused();
    assert_eq!(settings.update_topmost(false, Some(60)), Some(true));
}

#[test]
fn unattached_overlay_hides_while_the_game_is_unfocused() {
    let settings = WindowTrackingSettings::new();
    assert_eq!(settings.update_topmost(false, Some(1)), Some(false));
}

#[test]
fn settings_file_size_limit() {
    assert!(tracking_settings_size_ok(4096));
    assert!(!tracking_settings_size_ok(4097));
}

#[test]
fn capture_exclusion_changes_only_when_applied() {
    let mut settings = WindowTrackingSettings::new();
    let requested = settings.requested_capture_exclusion();
    assert!(requested);
    assert!(!settings.capture_exclusion_toggled(requested, false));
    assert!(!settings.exclude_from_capture);
    assert!(settings.capture_exclusion_toggled(requested, true));
    assert!(settings.exclude_from_capture);
    assert!(!settings.requested_capture_exclusion());
}
