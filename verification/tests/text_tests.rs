use voice_translator::text::{decimal_string, is_blank, join_strs, lower_eq, str_eq, trim_end_char_str, trim_str};

#[test]
fn trim_matches_std() {
    for s in ["", "  ", " a ", "\u{3000}x\u{2028}", "\u{85}a b\u{a0}", "ab", "\tq\r\n", "\u{200b}z"] {
        assert_eq!(trim_str(s), s.trim(), "{s:?}");
        assert_eq!(is_blank(s), s.trim().is_empty());
    }
}

#[test]
fn trim_end_char_matches_std() {
    for s in ["http://x//", "", "///", "a/b"] {
        assert_eq!(trim_end_char_str(s, '/'), s.trim_end_matches('/'));
    }
}

#[test]
fn case_folding_and_equality() {
    assert!(lower_eq("ZH", "zh"));
    assert!(lower_eq("你好", "你好"));
    assert!(!lower_eq("zh", "ZH"));
    assert!(!lower_eq("Ä", "ä"));
    assert!(str_eq("abc", "abc"));
    assert!(!str_eq("abc", "abd"));
}

#[test]
fn decimal_and_join() {
    assert_eq!(decimal_string(0), "0");
    assert_eq!(decimal_string(503), "503");
    assert_eq!(decimal_string(u64::MAX), u64::MAX.to_string());
    assert_eq!(join_strs(&vec!["zh", "en", "ja"], ", "), "zh, en, ja");
    assert_eq!(join_strs(&vec![], ", "), "");
    assert_eq!(join_strs(&vec!["x"], "-"), "x");
}
