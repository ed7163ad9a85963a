use krane_cam::text::{
    char_is_whitespace, contains_chars, find_chars, split_lines, str_chars, string_from_chars,
    trim_chars,
};

fn lines_of(s: &str) -> Vec<String> {
    let chars = str_chars(s);
    split_lines(&chars).iter().map(|l| string_from_chars(l)).collect()
}

#[test]
fn lines_split_like_str_lines() {
    for text in ["", "a", "a\n", "a\nb", "\n", "a\r\nb\r\n", "a\rb", "x\r", "\n\nz"] {
        let expected: Vec<String> = text.lines().map(|l| l.to_string()).collect();
        assert_eq!(lines_of(text), expected, "{:?}", text);
    }
}

#[test]
fn trim_matches_str_trim() {
    for text in ["", "  ", " a b ", "\t/dev/media0\r", "\u{a0}x\u{3000}", "x"] {
        let chars = str_chars(text);
        assert_eq!(string_from_chars(&trim_chars(&chars)), text.trim());
    }
    assert!(char_is_whitespace('\u{85}'));
    assert!(!char_is_whitespace('x'));
}

#[test]
fn find_and_contains_count_in_characters() {
    let hay = str_chars("héllo /dev/video7");
    let needle = str_chars("/dev/video");
    assert_eq!(find_chars(&hay, &needle), Some(6));
    assert!(contains_chars(&hay, &needle));
    assert!(!contains_chars(&needle, &hay));
    assert_eq!(find_chars(&hay, &[]), Some(0));
}
