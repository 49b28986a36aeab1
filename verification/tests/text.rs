use ibctl::clock::{at_least, chrono_timestamp, elapsed, elapsed_secs, longer_than, timestamp_text};
use ibctl::text::{contains, decimal_text, ends_with, find, joined, lowercase, parse_number, push_signed, split, split_words, starts_with, trim, uppercase};
use ibctl::types::{TotpCode, WindowId};

#[test]
fn trimming() {
    assert_eq!(trim("  a b\t\r\n"), "a b");
    assert_eq!(trim("\u{a0}x\u{3000}"), "x");
    assert_eq!(trim(" \n "), "");
    for c in ["\u{b}", "\u{c}", "\u{85}", "\u{1680}", "\u{2028}", "\u{202f}", "\u{205f}", "\u{200b}", "\u{1c}"] {
        assert_eq!(trim(c), c.trim(), "{:?}", c);
    }
}

#[test]
fn splitting_and_joining() {
    assert_eq!(split("a,b,,c", ','), vec!["a", "b", "", "c"]);
    assert_eq!(split("", ','), vec![""]);
    assert_eq!(split_words("  LOGS \t 5 "), vec!["LOGS", "5"]);
    assert!(split_words(" ").is_empty());
    assert_eq!(joined(&vec!["a".to_string(), "b".to_string()], ", "), "a, b");
    assert_eq!(joined(&Vec::new(), ", "), "");
}

#[test]
fn searching() {
    assert_eq!(find("hello", "l"), Some(2));
    assert_eq!(find("hello", ""), Some(0));
    assert_eq!(find("hi", "hello"), None);
    assert!(contains("re-login is required", "login is"));
    assert!(!contains("abc", "ac"));
    assert!(starts_with("-Dx", "-D") && !starts_with("-", "-D"));
    assert!(ends_with("a.jar", ".jar") && !ends_with("jar", ".jar"));
}

#[test]
fn numbers() {
    assert_eq!(parse_number("0", 10), Some(0));
    assert_eq!(parse_number("+7", 10), Some(7));
    assert_eq!(parse_number("10", 10), Some(10));
    assert_eq!(parse_number("11", 10), None);
    assert_eq!(parse_number("", 10), None);
    assert_eq!(parse_number("+", 10), None);
    assert_eq!(parse_number("-1", 10), None);
    assert_eq!(parse_number("18446744073709551615", u64::MAX), Some(u64::MAX));
    assert_eq!(parse_number("18446744073709551616", u64::MAX), None);
    assert_eq!(decimal_text(u64::MAX), "18446744073709551615");
    assert_eq!(decimal_text(0), "0");
    let mut s = String::new();
    push_signed(&mut s, i32::MIN);
    assert_eq!(s, "-2147483648");
}

#[test]
fn cases() {
    assert_eq!(lowercase("RE-LOGIN \u{c4}"), "re-login \u{e4}");
    assert_eq!(uppercase("stop \u{df}"), "STOP SS");
}

#[test]
fn clocks() {
    assert_eq!(elapsed(5, 3), 0);
    assert_eq!(elapsed(3, 5), 2);
    assert_eq!(elapsed_secs(0, 1_999_999_999), 1);
    assert_eq!(elapsed_secs(0, u128::MAX), u64::MAX);
    assert!(!longer_than(0, 5_000_000_000, 5) && longer_than(0, 5_000_000_001, 5));
    assert!(at_least(0, 5_000_000_000, 5) && !at_least(0, 4_999_999_999, 5));
    assert_eq!(timestamp_text(1_700_000_000), "1700000000");
    let now: u64 = chrono_timestamp().parse().unwrap();
    assert!(now > 1_600_000_000);
}

#[test]
fn values() {
    assert_eq!(WindowId(42).to_text(), "42");
    assert_eq!(TotpCode::new("123456".into()).into_inner(), "123456");
}
