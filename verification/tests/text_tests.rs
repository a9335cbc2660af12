use http_ssh_server::text::{chars_of, is_whitespace, same_text, starts_with, to_decimal, trim};

#[test]
fn trim_removes_surrounding_white_space() {
    assert_eq!(trim("  hi \n"), "hi");
    assert_eq!(trim("\t\r\n"), "");
    assert_eq!(trim("a b"), "a b");
    assert_eq!(trim(""), "");
    assert_eq!(trim("\u{3000}x\u{a0}"), "x");
}

#[test]
fn trim_agrees_with_the_standard_library() {
    let samples = [
        "", " ", "x", " x", "x ", "\n\nline one\nline two\n\n", "\u{2003}wide\u{2028}",
        "\u{feff}bom", "\u{200b}zero width", "tab\there",
    ];
    for s in samples {
        assert_eq!(trim(s), s.trim());
    }
}

#[test]
fn white_space_agrees_with_the_standard_library() {
    let mut n: u32 = 0;
    while n < 0x3100 {
        if let Some(c) = char::from_u32(n) {
            assert_eq!(is_whitespace(c), c.is_whitespace(), "U+{:04X}", n);
        }
        n += 1;
    }
}

#[test]
fn decimal_text_of_integers() {
    assert_eq!(to_decimal(0), "0");
    assert_eq!(to_decimal(-1), "-1");
    assert_eq!(to_decimal(15), "15");
    assert_eq!(to_decimal(1000), "1000");
    assert_eq!(to_decimal(i64::MIN), "-9223372036854775808");
    assert_eq!(to_decimal(i64::MAX), "9223372036854775807");
}

#[test]
fn prefixes_and_equality() {
    assert!(starts_with("cd /tmp", "cd "));
    assert!(!starts_with("cd", "cd "));
    assert!(starts_with("abc", ""));
    assert!(!starts_with("ab", "abc"));
    assert!(same_text("ping", "ping"));
    assert!(!same_text("ping", "pong"));
    assert!(!same_text("ping", "pin"));
    assert_eq!(chars_of("héllo"), vec!['h', 'é', 'l', 'l', 'o']);
}

#[test]
fn digits_are_appended() {
    let mut out = String::from("n=");
    http_ssh_server::text::push_digits(&mut out, 0);
    http_ssh_server::text::push_digits(&mut out, 907);
    http_ssh_server::text::push_decimal(&mut out, -42);
    http_ssh_server::text::push_digits(&mut out, u64::MAX);
    assert_eq!(out, "n=0907-4218446744073709551615");
}
