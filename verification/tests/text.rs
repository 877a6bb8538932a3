use vhost_scan::text::{contains, ends_with, parse_decimal_i32, to_chars};

#[test]
fn to_chars_lists_the_characters() {
    assert_eq!(to_chars("a\u{e9}z"), vec!['a', '\u{e9}', 'z']);
    assert!(to_chars("").is_empty());
}

#[test]
fn parse_reads_decimal_numbers() {
    assert_eq!(parse_decimal_i32("0"), Some(0));
    assert_eq!(parse_decimal_i32("80"), Some(80));
    assert_eq!(parse_decimal_i32("8080"), Some(8080));
    assert_eq!(parse_decimal_i32("+443"), Some(443));
    assert_eq!(parse_decimal_i32("-17"), Some(-17));
    assert_eq!(parse_decimal_i32("-0"), Some(0));
    assert_eq!(parse_decimal_i32("000000000000000000000012"), Some(12));
    assert_eq!(parse_decimal_i32("2147483647"), Some(i32::MAX));
    assert_eq!(parse_decimal_i32("-2147483648"), Some(i32::MIN));
}

#[test]
fn parse_refuses_what_is_no_number() {
    assert_eq!(parse_decimal_i32(""), None);
    assert_eq!(parse_decimal_i32("+"), None);
    assert_eq!(parse_decimal_i32("-"), None);
    assert_eq!(parse_decimal_i32("--1"), None);
    assert_eq!(parse_decimal_i32("+-1"), None);
    assert_eq!(parse_decimal_i32(" 1"), None);
    assert_eq!(parse_decimal_i32("1 "), None);
    assert_eq!(parse_decimal_i32("1_000"), None);
    assert_eq!(parse_decimal_i32("12a"), None);
    assert_eq!(parse_decimal_i32("0x10"), None);
    assert_eq!(parse_decimal_i32("\u{0663}"), None);
    assert_eq!(parse_decimal_i32("1\u{ff11}"), None);
}

#[test]
fn parse_refuses_what_does_not_fit() {
    assert_eq!(parse_decimal_i32("2147483648"), None);
    assert_eq!(parse_decimal_i32("-2147483649"), None);
    assert_eq!(parse_decimal_i32("99999999999"), None);
    assert_eq!(parse_decimal_i32("-99999999999999999999999999999999"), None);
    assert_eq!(parse_decimal_i32("18446744073709551616"), None);
    assert_eq!(parse_decimal_i32("4294967376"), None);
}

#[test]
fn parse_agrees_with_the_standard_parser() {
    let samples = [
        "", "0", "7", "+7", "-7", "++7", "007", "+-7", "7+", "2147483647", "2147483648",
        "-2147483648", "-2147483649", "21474836470", "+2147483647", "+2147483648", "9223372036854775808",
        "-", "+", " ", "a", "1a", "a1", "1.0", "1e3", "\u{0661}", "١٢", "-00000000002147483648",
        "00000000000000000000000000000000000000002147483647", "4294967295", "429496729600000",
    ];
    for sample in samples {
        assert_eq!(parse_decimal_i32(sample), sample.parse::<i32>().ok(), "{:?}", sample);
    }
    for value in [-100000i64, -1, 0, 1, 65535, 65536, 2147483646, 2147483647, 2147483648, -2147483648, -2147483649] {
        let shown = format!("{}", value);
        assert_eq!(parse_decimal_i32(&shown), shown.parse::<i32>().ok(), "{:?}", shown);
    }
}

#[test]
fn ends_with_compares_the_tail() {
    assert!(ends_with("site.conf", ".conf"));
    assert!(ends_with(".conf", ".conf"));
    assert!(ends_with("anything", ""));
    assert!(ends_with("", ""));
    assert!(!ends_with("conf", ".conf"));
    assert!(!ends_with("site.conf.bak", ".conf"));
    assert!(!ends_with("site.conf ", ".conf"));
    assert!(ends_with("na\u{ef}ve.conf", ".conf"));
    assert!(ends_with("x\u{e9}", "\u{e9}"));
}

#[test]
fn ends_with_agrees_with_the_standard_method() {
    let texts = ["", "a", "ab", "abc", "a.conf", ".conf", "conf", "é.conf", "a.conf.bak", "aaa"];
    let tails = ["", "a", "c", "bc", ".conf", "aa", "é.conf", "abc", "abcd"];
    for text in texts {
        for tail in tails {
            assert_eq!(ends_with(text, tail), text.ends_with(tail), "{:?} {:?}", text, tail);
        }
    }
}

#[test]
fn contains_finds_the_needle_anywhere() {
    assert!(contains("listen 443 ssl;", "ssl;"));
    assert!(contains("ssl;", "ssl;"));
    assert!(contains("ssl; listen", "ssl;"));
    assert!(contains("sssl;", "ssl;"));
    assert!(contains("abc", ""));
    assert!(contains("", ""));
    assert!(!contains("listen 443 ssl", "ssl;"));
    assert!(!contains("ssl ;", "ssl;"));
    assert!(!contains("", "ssl;"));
    assert!(!contains("ssl", "ssl;"));
}

#[test]
fn contains_agrees_with_the_standard_method() {
    let texts = ["", "a", "ab", "aab", "abab", "ababc", "ssl;", "xssl;x", "sslssl;", "é;é", "aaaa"];
    let needles = ["", "a", "b", "ab", "abc", "aa", "ssl;", "é", ";é", "ba", "aaaaa"];
    for text in texts {
        for needle in needles {
            assert_eq!(contains(text, needle), text.contains(needle), "{:?} {:?}", text, needle);
        }
    }
}
