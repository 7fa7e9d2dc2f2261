use naphwiki_timeline::window::{
    candidate_for_window, decode_utf16_lossy_chars, find_preferred_window, nonzero_process_id,
    process_name, selectable_window, wide_string, WindowCandidate,
};

fn utf16(s: &str) -> Vec<u16> {
    s.encode_utf16().collect()
}

fn window(name: &str) -> WindowCandidate {
    WindowCandidate { handle: 1, process_id: 2, process_name: name.to_string() }
}

#[test]
fn wide_string_is_nul_terminated_utf16() {
    assert_eq!(wide_string("Hi"), vec![72, 105, 0]);
    assert_eq!(wide_string(""), vec![0]);
    assert_eq!(wide_string("é😀"), vec![0xe9, 0xd83d, 0xde00, 0]);
    let text = "After closing this message, click the application window you want the timeline to follow.";
    let mut expected = utf16(text);
    expected.push(0);
    assert_eq!(wide_string(text), expected);
}

#[test]
fn process_name_is_the_last_path_component() {
    assert_eq!(process_name(&utf16("C:\\Games\\Lineage II\\system\\L2.bin")), Some("L2.bin".to_string()));
    assert_eq!(process_name(&utf16("/usr/bin/game")), Some("game".to_string()));
    assert_eq!(process_name(&utf16("game.exe")), Some("game.exe".to_string()));
    assert_eq!(process_name(&utf16("C:\\Games\\")), None);
    assert_eq!(process_name(&[]), None);
}

#[test]
fn process_name_decodes_utf16_lossily() {
    assert_eq!(process_name(&utf16("C:\\Spiele\\Über😀.exe")), Some("Über😀.exe".to_string()));
    assert_eq!(process_name(&[0x61, 0xd800, 0x62]), Some("a\u{fffd}b".to_string()));
    assert_eq!(process_name(&[0xdc00, 0x5c, 0xd83d]), Some("\u{fffd}".to_string()));
    assert_eq!(decode_utf16_lossy_chars(&[0xd83d, 0xde00, 0xde00]), vec!['😀', '\u{fffd}']);
}

#[test]
fn candidate_needs_process_and_name() {
    let path = utf16("C:\\x\\game.exe");
    let c = candidate_for_window(10, Some(20), Some(&path)).expect("candidate");
    assert_eq!((c.handle, c.process_id, c.process_name.as_str()), (10, 20, "game.exe"));
    assert!(candidate_for_window(10, None, Some(&path)).is_none());
    assert!(candidate_for_window(10, Some(20), None).is_none());
    assert!(candidate_for_window(10, Some(20), Some(&utf16("C:\\x\\"))).is_none());
}

#[test]
fn process_id_zero_is_unknown() {
    assert_eq!(nonzero_process_id(0), None);
    assert_eq!(nonzero_process_id(42), Some(42));
}

#[test]
fn only_plain_visible_windows_of_other_processes_are_selectable() {
    assert!(selectable_window(true, true, false, false, Some(5), 1));
    assert!(!selectable_window(false, true, false, false, Some(5), 1));
    assert!(!selectable_window(true, false, false, false, Some(5), 1));
    assert!(!selectable_window(true, true, true, false, Some(5), 1));
    assert!(!selectable_window(true, true, false, true, Some(5), 1));
    assert!(!selectable_window(true, true, false, false, None, 1));
    assert!(!selectable_window(true, true, false, false, Some(1), 1));
}

#[test]
fn preferred_window_is_found_ignoring_case() {
    let windows = vec![window("explorer.exe"), window("l2.BIN"), window("L2.bin")];
    assert_eq!(find_preferred_window("L2.bin", &windows), Some(1));
    assert_eq!(find_preferred_window("EXPLORER.EXE", &windows), Some(0));
    assert_eq!(find_preferred_window("L2", &windows), None);
    assert_eq!(find_preferred_window("L2.bin", &Vec::new()), None);
}
