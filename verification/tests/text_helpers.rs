use dd_agent::text::{contains, is_blank, is_whitespace, parse_u64, str_eq, strip_trailing, trim, trim_end};

#[test]
fn trim_removes_unicode_white_space_on_both_ends() {
    assert_eq!(trim("  \t hello world \n"), "hello world");
    assert_eq!(trim("\u{3000}全角\u{3000}"), "全角");
    assert_eq!(trim("   "), "");
    assert_eq!(trim(""), "");
    assert_eq!(trim("a b"), "a b");
}

#[test]
fn trim_end_keeps_leading_space() {
    assert_eq!(trim_end("  exit \r\n"), "  exit");
    assert_eq!(trim_end("\u{2003}"), "");
}

#[test]
fn trim_agrees_with_std_trim() {
    for s in ["", " ", "x", " x ", "\u{85}x\u{a0}", "\u{200b}x", "\u{1680}\u{2028}y\u{2029}\u{202f}\u{205f}"] {
        assert_eq!(trim(s), s.trim());
        assert_eq!(trim_end(s), s.trim_end());
    }
}

#[test]
fn white_space_matches_char_is_whitespace() {
    for u in 0u32..0x3100 {
        if let Some(c) = char::from_u32(u) {
            assert_eq!(is_whitespace(c), c.is_whitespace(), "{:x}", u);
        }
    }
}

#[test]
fn blank_strings() {
    assert!(is_blank(""));
    assert!(is_blank(" \t\n"));
    assert!(!is_blank(" a "));
}

#[test]
fn strip_trailing_removes_the_whole_run() {
    assert_eq!(strip_trailing("http://x/v1///", '/'), "http://x/v1");
    assert_eq!(strip_trailing("http://x/v1", '/'), "http://x/v1");
    assert_eq!(strip_trailing("///", '/'), "");
}

#[test]
fn substring_search() {
    assert!(contains("set-executionpolicy bypass", "executionpolicy"));
    assert!(contains("abc", ""));
    assert!(!contains("ab", "abc"));
    assert!(!contains("iex", "iex "));
    assert!(contains("你好世界", "好世"));
}

#[test]
fn string_equality() {
    assert!(str_eq("[DONE]", "[DONE]"));
    assert!(!str_eq("[DONE]", "[DONE] "));
    assert!(!str_eq("", "a"));
}

#[test]
fn parse_u64_accepts_what_std_accepts() {
    let cases = [
        "0", "42", "+7", "+", "", "-1", " 5", "5 ", "007", "18446744073709551615",
        "18446744073709551616", "99999999999999999999", "1a", "+0",
    ];
    for s in cases {
        assert_eq!(parse_u64(s), s.parse::<u64>().ok(), "{:?}", s);
    }
    assert_eq!(parse_u64("30"), Some(30));
}
