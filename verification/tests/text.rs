use haru::text::{decimal_string, first_subtag_str, is_white_space_char, replace, str_eq, trim_str};

#[test]
fn white_space_matches_std_for_every_char() {
    for c in (0u32..=0x10FFFF).filter_map(char::from_u32) {
        assert_eq!(is_white_space_char(c), c.is_whitespace(), "{:?}", c);
    }
}

#[test]
fn trim_matches_std() {
    for s in ["", "   ", " a ", "\u{3000}x\u{2028}", "a b", "\t\r\nq\r\n", "\u{85}z\u{A0}"] {
        assert_eq!(trim_str(s), s.trim(), "{s:?}");
    }
}

#[test]
fn replace_matches_std() {
    let cases = [
        ("aaaa", "aa", "b"),
        ("{n} {unit} {n}", "{n}", "12"),
        ("no match", "{x}", "y"),
        ("ababab", "aba", "X"),
        ("心情：{mood}", "{mood}", "呼噜噜"),
        ("", "{a}", "b"),
        ("{a", "{a}", "b"),
    ];
    for (s, p, r) in cases {
        assert_eq!(replace(s, p, r), s.replace(p, r), "{s:?} {p:?} {r:?}");
    }
}

#[test]
fn decimal_matches_to_string() {
    for n in [0u64, 1, 9, 10, 11, 99, 100, 101, 4096, 1234567890, u64::MAX - 1, u64::MAX] {
        assert_eq!(decimal_string(n), n.to_string());
    }
}

#[test]
fn first_subtag_splits_at_separators() {
    assert_eq!(first_subtag_str("zh-CN"), "zh");
    assert_eq!(first_subtag_str("zh_CN.UTF-8"), "zh");
    assert_eq!(first_subtag_str("C.UTF-8"), "C");
    assert_eq!(first_subtag_str("plain"), "plain");
    assert_eq!(first_subtag_str(".x"), "");
}

#[test]
fn str_eq_compares_characters() {
    assert!(str_eq("2026-07-06", "2026-07-06"));
    assert!(!str_eq("2026-07-06", "2026-07-05"));
    assert!(!str_eq("ab", "abc"));
    assert!(str_eq("", ""));
    assert!(str_eq("心情", "心情"));
}
