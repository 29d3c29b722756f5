use self_cmd::numbers::parse_i32_of;
use self_cmd::text::{
    chars_of, is_whitespace, remove_all_of, same_text, split_by, starts_with, trim_end_of,
};

#[test]
fn split_keeps_empty_pieces() {
    assert_eq!(split_by("a\nb\n\nc", '\n'), vec!["a", "b", "", "c"]);
    assert_eq!(split_by("", '\n'), vec![""]);
    assert_eq!(split_by("\n", '\n'), vec!["", ""]);
    assert_eq!(split_by("abc", '\n'), vec!["abc"]);
}

#[test]
fn split_then_join_gives_back_the_text() {
    let s = "x\n\ny z\n";
    assert_eq!(split_by(s, '\n').join("\n"), s);
}

#[test]
fn split_agrees_with_std() {
    let s = "one\ntwo\r\nthree";
    let std_pieces: Vec<String> = s.split('\n').map(|p| p.to_string()).collect();
    assert_eq!(split_by(s, '\n'), std_pieces);
}

#[test]
fn trim_end_drops_trailing_white_space_only() {
    assert_eq!(trim_end_of("  ab \n\t"), "  ab");
    assert_eq!(trim_end_of("ab\u{3000}\u{a0}"), "ab");
    assert_eq!(trim_end_of(" \n "), "");
    assert_eq!(trim_end_of("a b"), "a b");
    let s = "x\u{2028}y\u{205f} \r\n";
    assert_eq!(trim_end_of(s), s.trim_end());
}

#[test]
fn white_space_matches_std() {
    for c in ['\t', '\n', '\u{b}', '\u{c}', '\r', ' ', '\u{85}', '\u{a0}', '\u{1680}', '\u{2000}',
              '\u{200a}', '\u{2028}', '\u{2029}', '\u{202f}', '\u{205f}', '\u{3000}', 'a', '\u{200b}',
              '\u{feff}', '0', '\u{1f}'] {
        assert_eq!(is_whitespace(c), c.is_whitespace(), "{:?}", c);
    }
}

#[test]
fn prefixes() {
    assert!(starts_with("vmess://abc", "vmess://"));
    assert!(!starts_with("vmess:/", "vmess://"));
    assert!(starts_with("x", ""));
    assert!(!starts_with("vless://a", "vmess://"));
}

#[test]
fn remove_all_removes_every_occurrence() {
    assert_eq!(remove_all_of("vmess://abcvmess://d", "vmess://"), "abcd");
    assert_eq!(remove_all_of("abc", "vmess://"), "abc");
    assert_eq!(remove_all_of("vmevmess://ss://", "vmess://"), "vmess://");
    assert_eq!(remove_all_of("aaa", "aa"), "a");
}

#[test]
fn chars_and_equality() {
    assert_eq!(chars_of("héllo"), vec!['h', 'é', 'l', 'l', 'o']);
    assert!(same_text("ws", "ws"));
    assert!(!same_text("ws", "wss"));
}

#[test]
fn parse_i32_like_std() {
    for s in ["443", "+12", "-5", "0", "-0", "2147483647", "2147483648", "-2147483648",
              "-2147483649", "", "+", "-", "1a", " 1", "1 ", "99999999999", "007", "+-1"] {
        assert_eq!(parse_i32_of(s), s.parse::<i32>().ok(), "{:?}", s);
    }
}

#[test]
fn parse_i32_values() {
    assert_eq!(parse_i32_of("443"), Some(443));
    assert_eq!(parse_i32_of("-2147483648"), Some(i32::MIN));
    assert_eq!(parse_i32_of("2147483648"), None);
    assert_eq!(parse_i32_of("8o8o"), None);
}
