use localtube::text::{decimal_string, parse_u64, replace_str, trim_str};

#[test]
fn parses_unsigned_integers_like_std() {
    assert_eq!(parse_u64("0"), Some(0));
    assert_eq!(parse_u64("+17"), Some(17));
    assert_eq!(parse_u64("18446744073709551615"), Some(u64::MAX));
    assert_eq!(parse_u64("18446744073709551616"), None);
    assert_eq!(parse_u64(""), None);
    assert_eq!(parse_u64("+"), None);
    assert_eq!(parse_u64("-1"), None);
    assert_eq!(parse_u64(" 1"), None);
    for text in ["7", "+7", "0042", "99999999999999999999", "1_000", "٣"] {
        assert_eq!(parse_u64(text), text.parse::<u64>().ok(), "{text}");
    }
}

#[test]
fn renders_decimals() {
    assert_eq!(decimal_string(0), "0");
    assert_eq!(decimal_string(1234567890), "1234567890");
    assert_eq!(decimal_string(u64::MAX), u64::MAX.to_string());
}

#[test]
fn replaces_like_std() {
    for (s, pat, rep) in [
        ("aaaa", "aa", "b"),
        ("{{T}}x{{T}}", "{{T}}", "<t>"),
        ("abc", "z", "q"),
        ("", "a", "b"),
        ("ababa", "aba", "X"),
    ] {
        assert_eq!(replace_str(s, pat, rep), s.replace(pat, rep));
    }
}

#[test]
fn trims_like_std() {
    for s in ["  a b  ", "\u{2003}x\u{85}", "", "   ", "\tq"] {
        assert_eq!(trim_str(s), s.trim());
    }
}
