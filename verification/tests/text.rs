use naphwiki_timeline::text::{
    chars_of, concat_text, eq_ignore_ascii_case, is_control, is_whitespace, same_text, string_of,
    trim_bounds, utf8_len_at_most, without_controls_limited,
};

#[test]
fn control_and_whitespace_classes_match_std() {
    for c in ['\0', '\n', '\u{7f}', '\u{85}', '\u{9f}', 'a', ' ', '\u{a0}', '\u{3000}', '\u{200b}', 'é'] {
        assert_eq!(is_control(c), c.is_control(), "{c:?}");
        assert_eq!(is_whitespace(c), c.is_whitespace(), "{c:?}");
    }
}

#[test]
fn trim_bounds_match_str_trim() {
    for s in ["", "   ", " a b ", "\u{2003}x\u{2028}", "abc", "\u{200b} x"] {
        let chars = chars_of(s);
        let (start, end) = trim_bounds(&chars);
        assert_eq!(string_of(&chars, start, end), s.trim(), "{s:?}");
    }
}

#[test]
fn controls_are_dropped_up_to_the_limit() {
    let chars = chars_of("a\u{0}b\u{7}c");
    assert_eq!(without_controls_limited(&chars, 2), vec!['a', 'b']);
    assert_eq!(without_controls_limited(&chars, 10), vec!['a', 'b', 'c']);
    assert_eq!(without_controls_limited(&chars, 0), Vec::<char>::new());
}

#[test]
fn text_comparisons() {
    assert!(eq_ignore_ascii_case("L2.BIN", "l2.bin"));
    assert!(!eq_ignore_ascii_case("É", "é"));
    assert!(!eq_ignore_ascii_case("ab", "abc"));
    assert!(same_text("main", "main"));
    assert!(!same_text("main", "Main"));
    assert_eq!(concat_text("a", "bc"), "abc");
}

#[test]
fn utf8_length_limit() {
    assert!(utf8_len_at_most(&chars_of("é😀"), 6));
    assert!(!utf8_len_at_most(&chars_of("é😀"), 5));
    assert!(utf8_len_at_most(&chars_of(""), 0));
}

