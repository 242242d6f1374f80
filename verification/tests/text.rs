use agent_review_helper::text::{
    decimal_string, join_with, lines_of, split_once_char, strip_prefix, trim, trim_end_char_of,
    trim_end_str_of, words_of,
};

#[test]
fn trim_removes_unicode_whitespace() {
    assert_eq!(trim("  \t hello world \u{3000}\n"), "hello world");
    assert_eq!(trim("   "), "");
    assert_eq!(trim(""), "");
    assert_eq!(trim("\u{85}x\u{a0}"), "x");
}

#[test]
fn lines_match_std() {
    for s in ["", "a", "a\n", "a\r\nb", "a\n\nb\n", "x\r", "\n", "one\ntwo\r\nthree"] {
        let expected: Vec<String> = s.lines().map(|l| l.to_string()).collect();
        assert_eq!(lines_of(s), expected, "input {s:?}");
    }
}

#[test]
fn words_match_std() {
    for s in ["", "  a  b ", "origin\tgit@github.com:a/b.git (fetch)", "\u{2003}x\u{2003}y"] {
        let expected: Vec<String> = s.split_whitespace().map(|w| w.to_string()).collect();
        assert_eq!(words_of(s), expected, "input {s:?}");
    }
}

#[test]
fn splitn_two_like_std() {
    let (a, b) = split_once_char("github.com/gfx-rs/wgpu", '/');
    assert_eq!(a, "github.com");
    assert_eq!(b.as_deref(), Some("gfx-rs/wgpu"));
    let (a, b) = split_once_char("nocolon", ':');
    assert_eq!(a, "nocolon");
    assert_eq!(b, None);
}

#[test]
fn strip_and_trim_end() {
    assert_eq!(strip_prefix("https://x", "https://").as_deref(), Some("x"));
    assert_eq!(strip_prefix("http://x", "https://"), None);
    assert_eq!(trim_end_char_of("a/b///", '/'), "a/b");
    assert_eq!(trim_end_str_of("wgpu.git.git", ".git"), "wgpu");
    assert_eq!(trim_end_str_of("wgpu", ".git"), "wgpu");
}

#[test]
fn join_and_decimal() {
    let items = vec!["a".to_string(), "b".to_string(), "c".to_string()];
    assert_eq!(join_with(&items, ", "), "a, b, c");
    assert_eq!(join_with(&Vec::new(), ", "), "");
    assert_eq!(decimal_string(0), "0");
    assert_eq!(decimal_string(9464), "9464");
    assert_eq!(decimal_string(u64::MAX), u64::MAX.to_string());
}
