use syncplaympv::text::{
    append_decimal, append_hexadecimal, chars_of, is_whitespace, parse_u64, same_text,
    strip_prefix, trim, trim_bounds, trimmed_chars, words,
};

fn word_list(s: &str) -> Vec<String> {
    words(&chars_of(s)).iter().map(|w| w.iter().collect()).collect()
}

#[test]
fn white_space_agrees_with_char() {
    for c in '\0'..=char::MAX {
        assert_eq!(is_whitespace(c), c.is_whitespace(), "{:?}", c);
    }
}

#[test]
fn trim_agrees_with_str() {
    for s in ["", " ", "\n", "a", " a ", "\u{3000}a b\u{85}\r\n", "\t\t", "  x", "x  ", "\u{200b}"] {
        assert_eq!(trim(s), s.trim(), "{:?}", s);
        assert_eq!(trimmed_chars(s), s.trim().chars().collect::<Vec<char>>());
    }
    assert_eq!(trim_bounds(&chars_of(" ab ")), (1, 3));
}

#[test]
fn words_agree_with_split_whitespace() {
    for s in ["", "  ", "a", "a b", " a\t\tbc \u{2003}d\n", "1 2 3 4", "ä\u{a0}ö"] {
        let expected: Vec<String> = s.split_whitespace().map(|w| w.to_string()).collect();
        assert_eq!(word_list(s), expected, "{:?}", s);
    }
}

#[test]
fn numbers_agree_with_parse() {
    for s in [
        "", "+", "-", "0", "+0", "-0", "007", "+12", "++1", "1 ", " 1", "1_0", "12a", "a", "٣",
        "18446744073709551615", "18446744073709551616", "18446744073709551620",
        "00000000000000000000000000001", "99999999999999999999999", "1844674407370955161a",
        "184467440737095516150a",
    ] {
        assert_eq!(parse_u64(&chars_of(s)), s.parse::<u64>().ok(), "{:?}", s);
    }
}

#[test]
fn decimal_agrees_with_display_and_reads_back() {
    for n in [0, 7, 9, 10, 42, 99, 100, 1_700_000_000_000, u64::MAX - 1, u64::MAX] {
        let mut s = String::from("x");
        append_decimal(&mut s, n);
        assert_eq!(s, format!("x{}", n));
        assert_eq!(parse_u64(&chars_of(&s[1..])), Some(n));
    }
}

#[test]
fn hexadecimal_agrees_with_lower_hex() {
    for n in [0, 9, 10, 15, 16, 255, 256, 0xdead_beef, 0x1234_5678_9abc_def0, u64::MAX] {
        let mut s = String::new();
        append_hexadecimal(&mut s, n);
        assert_eq!(s, format!("{:x}", n));
    }
}

#[test]
fn prefixes() {
    let s = chars_of("PING 5");
    assert_eq!(strip_prefix(&s, "PING "), Some(vec!['5']));
    assert_eq!(strip_prefix(&s, "PONG "), None);
    assert_eq!(strip_prefix(&s, "PING 55"), None);
    assert_eq!(strip_prefix(&s, "PING 5"), Some(vec![]));
    assert!(same_text(&s, "PING 5"));
    assert!(!same_text(&s, "PING"));
    assert!(!same_text(&s, "PING 6"));
}
