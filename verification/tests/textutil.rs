use bride::cli::{parse_command_line_args, DEFAULT_PORT};
use bride::monitor::StateMonitor;
use bride::numbers::{
    i32_string, i64_string, parse_hex_u32, parse_i32, parse_i64, parse_u16, parse_u32, pad_left,
    pad_right, u32_flags_binary, u32_hex_string, u64_string,
};
use bride::text::{is_space, join_lines, split_lines, split_spaces, starts_with_str, str_eq, trim_str};
use bride::util::bool_string;

#[test]
fn trim_removes_outer_whitespace() {
    assert_eq!(trim_str("  a b  "), "a b");
    assert_eq!(trim_str("\t\r\nx\n"), "x");
    assert_eq!(trim_str("   "), "");
    assert_eq!(trim_str(""), "");
    assert_eq!(trim_str("no-trim"), "no-trim");
}

#[test]
fn whitespace_matches_std() {
    // The whitespace predicate is exactly the standard library's.
    for u in 0..=0x11000u32 {
        if let Some(c) = char::from_u32(u) {
            assert_eq!(is_space(c), c.is_whitespace(), "on U+{:04X}", u);
        }
    }
    for c in ['\u{10000}', '\u{e0020}', char::MAX] {
        assert_eq!(is_space(c), c.is_whitespace());
    }
}

#[test]
fn trim_removes_unicode_whitespace() {
    assert_eq!(trim_str("\u{a0}\u{2003}x\u{2028}"), "x");
    assert_eq!(trim_str("\u{3000}"), "");
}

#[test]
fn split_lines_keeps_inner_empties() {
    let parts = split_lines("a\nb\n\nc");
    assert_eq!(parts, vec!["a", "b", "", "c"]);
    assert_eq!(split_lines(""), vec![""]);
    assert_eq!(split_lines("a\n"), vec!["a", ""]);
}

#[test]
fn split_spaces_splits_on_every_whitespace() {
    assert_eq!(split_spaces("a b  c"), vec!["a", "b", "", "c"]);
}

#[test]
fn join_lines_puts_newlines_between() {
    let parts = vec!["a".to_string(), "b".to_string(), "c".to_string()];
    assert_eq!(join_lines(&parts), "a\nb\nc");
    assert_eq!(join_lines(&Vec::new()), "");
}

#[test]
fn prefix_and_equality() {
    assert!(starts_with_str("<READY>extra", "<READY>"));
    assert!(!starts_with_str("<READ", "<READY>"));
    assert!(str_eq("same", "same"));
    assert!(!str_eq("same", "Same"));
}

#[test]
fn decimal_formatting() {
    assert_eq!(u64_string(0), "0");
    assert_eq!(u64_string(90210), "90210");
    assert_eq!(i32_string(-42), "-42");
    assert_eq!(i32_string(i32::MIN), "-2147483648");
    assert_eq!(i64_string(i64::MIN), "-9223372036854775808");
}

#[test]
fn hex_and_binary_formatting() {
    assert_eq!(u32_hex_string(0xff0000ff), "ff0000ff");
    assert_eq!(u32_hex_string(0), "0");
    assert_eq!(u32_flags_binary(5), "0b0000000101");
    assert_eq!(u32_flags_binary(5), format!("{:#012b}", 5));
    assert_eq!(u32_flags_binary(0x7ff), format!("{:#012b}", 0x7ff));
}

#[test]
fn padding_matches_display_widths() {
    assert_eq!(pad_left("7", 2), " 7");
    assert_eq!(pad_left("123", 2), "123");
    assert_eq!(pad_right("ab", 5), "ab   ");
}

#[test]
fn decimal_parsing() {
    assert_eq!(parse_i32("123"), Some(123));
    assert_eq!(parse_i32("+123"), Some(123));
    assert_eq!(parse_i32("-2147483648"), Some(i32::MIN));
    assert_eq!(parse_i32("2147483648"), None);
    assert_eq!(parse_i32("12a"), None);
    assert_eq!(parse_i32(""), None);
    assert_eq!(parse_i32("-"), None);
    assert_eq!(parse_i64("-9223372036854775808"), Some(i64::MIN));
    assert_eq!(parse_i64("9223372036854775808"), None);
    assert_eq!(parse_u32("4294967295"), Some(u32::MAX));
    assert_eq!(parse_u32("4294967296"), None);
    assert_eq!(parse_u32("-1"), None);
    assert_eq!(parse_u16("65535"), Some(65535));
    assert_eq!(parse_u16("65536"), None);
}

#[test]
fn hex_parsing() {
    assert_eq!(parse_hex_u32("ff"), Some(255));
    assert_eq!(parse_hex_u32("FF"), Some(255));
    assert_eq!(parse_hex_u32("ff0000ff"), Some(0xff0000ff));
    assert_eq!(parse_hex_u32("100000000"), None);
    assert_eq!(parse_hex_u32("xyz"), None);
    assert_eq!(parse_hex_u32(""), None);
}

#[test]
fn parsing_matches_std() {
    for s in ["0", "+7", "-7", "2147483647", "-2147483648", "99999999999", "1e3", ""] {
        assert_eq!(parse_i32(s), s.parse::<i32>().ok(), "on {:?}", s);
    }
    for s in ["0", "ff", "FF", "+a", "-1", "ffffffff", "100000000"] {
        assert_eq!(parse_hex_u32(s), u32::from_str_radix(s, 16).ok(), "on {:?}", s);
    }
}

#[test]
fn command_line_arguments() {
    let args = |v: &[&str]| v.iter().map(|s| s.to_string()).collect::<Vec<_>>();
    assert_eq!(parse_command_line_args(args(&["prog"])), (false, DEFAULT_PORT));
    assert_eq!(parse_command_line_args(args(&["prog", "-s"])), (true, DEFAULT_PORT));
    assert_eq!(
        parse_command_line_args(args(&["prog", "-p", "8080", "--shell"])),
        (true, 8080)
    );
    assert_eq!(
        parse_command_line_args(args(&["prog", "--port", "notaport"])),
        (false, DEFAULT_PORT)
    );
    assert_eq!(parse_command_line_args(args(&["prog", "-p"])), (false, DEFAULT_PORT));
}

#[test]
fn bool_literals() {
    assert_eq!(bool_string(true), "#t");
    assert_eq!(bool_string(false), "#f");
}

#[test]
fn monitor_throttles_until_change() {
    let mut m = StateMonitor::new(0);
    assert!(m.time_elapsed(100, 100));
    assert!(!m.time_elapsed(99, 100));
    m.update(42, 50);
    // The change moved the mark to tick 50.
    assert!(!m.time_elapsed(100, 100));
    assert!(m.time_elapsed(150, 100));
    // The same code again does not move the mark.
    m.update(42, 140);
    assert!(m.time_elapsed(150, 100));
    m.sleep(150);
    assert!(!m.time_elapsed(1000000, 100));
}
