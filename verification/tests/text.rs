use routertrap::text::{
    chars_eq, eq_str, has_prefix, is_whitespace, parse_decimal, parse_ipv4, parse_ipv4_octet,
    split_fields, split_words, to_chars, to_string, trimmed,
};

fn chars(s: &str) -> Vec<char> {
    s.chars().collect()
}

fn strings(v: Vec<Vec<char>>) -> Vec<String> {
    v.iter().map(|w| w.iter().collect()).collect()
}

#[test]
fn text_to_chars_and_back() {
    for s in ["", "a", "conf t", "h\u{e9}llo \u{1F600}"] {
        assert_eq!(to_chars(s), chars(s));
        assert_eq!(to_string(&chars(s)), s);
    }
}

#[test]
fn text_whitespace_is_what_std_calls_whitespace() {
    for code in 0u32..0x3100 {
        if let Some(c) = char::from_u32(code) {
            assert_eq!(is_whitespace(c), c.is_whitespace(), "U+{:04X}", code);
        }
    }
    assert!(!is_whitespace('\u{FEFF}'));
    assert!(!is_whitespace('\u{10FFFF}'));
}

#[test]
fn text_trim_matches_std() {
    for s in ["", " ", "  \t\r\n", "en", "  en", "en  ", " conf  t \n", "\u{a0}x\u{3000}", "a b"] {
        assert_eq!(to_string(&trimmed(&chars(s))), s.trim(), "{:?}", s);
    }
}

#[test]
fn text_words_match_std() {
    for s in ["", "   ", "show", "show ip  route", "  ip\tinterface\nGi0/0  ", "a\u{2003}b"] {
        let expected: Vec<String> = s.split_whitespace().map(|w| w.to_string()).collect();
        assert_eq!(strings(split_words(&chars(s))), expected, "{:?}", s);
    }
}

#[test]
fn text_fields_match_std() {
    for s in ["", ".", "1.2.3.4", "1..2", ".1", "1.", "abc", "a.b.c.d.e"] {
        let expected: Vec<String> = s.split('.').map(|w| w.to_string()).collect();
        assert_eq!(strings(split_fields(&chars(s), '.')), expected, "{:?}", s);
    }
}

#[test]
fn text_comparisons() {
    assert!(eq_str(&chars("enable"), "enable"));
    assert!(!eq_str(&chars("enable"), "en"));
    assert!(!eq_str(&chars("en"), "enable"));
    assert!(eq_str(&chars(""), ""));
    assert!(has_prefix(&chars("show version"), "show "));
    assert!(has_prefix(&chars("show "), "show "));
    assert!(!has_prefix(&chars("show"), "show "));
    assert!(has_prefix(&chars("x"), ""));
    assert!(chars_eq(&chars("abc"), &chars("abc")));
    assert!(!chars_eq(&chars("abc"), &chars("abd")));
    assert!(!chars_eq(&chars("abc"), &chars("ab")));
}

#[test]
fn text_decimal_numbers() {
    assert_eq!(parse_decimal(&chars("0"), 255), Some(0));
    assert_eq!(parse_decimal(&chars("255"), 255), Some(255));
    assert_eq!(parse_decimal(&chars("256"), 255), None);
    assert_eq!(parse_decimal(&chars("007"), 255), Some(7));
    assert_eq!(parse_decimal(&chars(""), 255), None);
    assert_eq!(parse_decimal(&chars("+1"), 255), None);
    assert_eq!(parse_decimal(&chars("-1"), 255), None);
    assert_eq!(parse_decimal(&chars("1a"), 255), None);
    assert_eq!(parse_decimal(&chars("a1"), 255), None);
    assert_eq!(parse_decimal(&chars("\u{0661}"), 255), None);
    assert_eq!(parse_decimal(&chars("18446744073709551615"), u64::MAX), Some(u64::MAX));
    assert_eq!(parse_decimal(&chars("18446744073709551616"), u64::MAX), None);
    assert_eq!(parse_decimal(&chars("99999999999999999999999999"), u64::MAX), None);
    assert_eq!(parse_decimal(&chars("4294967295"), 0xFFFF_FFFF), Some(4294967295));
    assert_eq!(parse_decimal(&chars("4294967296"), 0xFFFF_FFFF), None);
}

#[test]
fn text_ipv4_addresses() {
    assert_eq!(parse_ipv4("192.168.1.1"), Some([192, 168, 1, 1]));
    assert_eq!(parse_ipv4("0.0.0.0"), Some([0, 0, 0, 0]));
    assert_eq!(parse_ipv4("255.255.255.255"), Some([255, 255, 255, 255]));
    assert_eq!(parse_ipv4("1.2.3.4"), Some([1, 2, 3, 4]));
    for bad in [
        "", "1", "1.2.3", "1.2.3.4.5", "1.2.3.", ".1.2.3", "1..3.4", "256.0.0.1", "1.2.3.256",
        "01.2.3.4", "1.2.3.04", "00.0.0.0", "1.2.3.4 ", " 1.2.3.4", "1.2.3.a", "1,2,3,4",
        "1.2.3.-4", "1.2.3.+4", "1000.1.1.1", "::1", "0x1.2.3.4",
    ] {
        assert_eq!(parse_ipv4(bad), None, "{:?}", bad);
    }
    assert_eq!(parse_ipv4_octet(&chars("0")), Some(0));
    assert_eq!(parse_ipv4_octet(&chars("10")), Some(10));
    assert_eq!(parse_ipv4_octet(&chars("010")), None);
    assert_eq!(parse_ipv4_octet(&chars("")), None);
}
