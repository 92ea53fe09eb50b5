use rendering::text::{chars_of, lowercase_chars, same_text, text_holds};

#[test]
fn words_are_found_anywhere() {
    assert!(text_holds("h264_nvenc", "nvenc"));
    assert!(text_holds("nvenc", "nvenc"));
    assert!(text_holds("anything", ""));
    assert!(text_holds("", ""));
    assert!(text_holds("aab", "ab"));
    assert!(!text_holds("nven", "nvenc"));
    assert!(!text_holds("nvxenc", "nvenc"));
    assert!(!text_holds("", "a"));
}

#[test]
fn only_ascii_letters_are_lowered() {
    assert_eq!(lowercase_chars("AZ[az\u{c4}"), vec!['a', 'z', '[', 'a', 'z', '\u{c4}']);
}

#[test]
fn texts_are_compared_in_full() {
    assert!(same_text("x264", "x264"));
    assert!(!same_text("x264", "x265"));
    assert!(!same_text("x264", "x26"));
    assert!(same_text("", ""));
}

#[test]
fn characters_are_not_bytes() {
    assert_eq!(chars_of("a\u{fc}b"), vec!['a', '\u{fc}', 'b']);
}
