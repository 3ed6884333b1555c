use sysinfo_applet::text;

#[test]
fn trim_takes_white_space_off_both_ends() {
    assert_eq!(text::trim("  42 \n"), "42");
    assert_eq!(text::trim("a b"), "a b");
    assert_eq!(text::trim(" \t\r\n"), "");
    assert_eq!(text::trim(""), "");
    assert_eq!(text::trim("\u{3000}\u{b0}C\u{a0}"), "\u{b0}C");
}

#[test]
fn white_space_is_the_unicode_property() {
    let mut white: Vec<u32> = Vec::new();
    for code in 0..=0x10_ffffu32 {
        if let Some(c) = char::from_u32(code) {
            if text::trim(c.encode_utf8(&mut [0; 4])).is_empty() {
                white.push(code);
            }
        }
    }
    let listed: Vec<u32> = (9..=13)
        .chain([0x20, 0x85, 0xa0, 0x1680])
        .chain(0x2000..=0x200a)
        .chain([0x2028, 0x2029, 0x202f, 0x205f, 0x3000])
        .collect();
    assert_eq!(white, listed);
}

#[test]
fn search_finds_the_first_place() {
    assert_eq!(text::position_of("abcabc", "bc"), Some(1));
    assert_eq!(text::position_of("abc", ""), Some(0));
    assert_eq!(text::position_of("", ""), Some(0));
    assert_eq!(text::position_of("ab", "abc"), None);
    assert_eq!(text::position_of("aab", "ab"), Some(1));
    assert_eq!(text::position_of("\u{b0}\u{b0}C", "C"), Some(2));
    assert!(text::contains("k10temp tctl", "tctl"));
    assert!(!text::contains("k10temp tctl", "tdie"));
}

#[test]
fn split_once_splits_at_the_first_mark() {
    assert_eq!(text::split_once("45, 3", ", "), Some(("45", "3")));
    assert_eq!(text::split_once("a, b, c", ", "), Some(("a", "b, c")));
    assert_eq!(text::split_once(", ", ", "), Some(("", "")));
    assert_eq!(text::split_once("45,3", ", "), None);
}

#[test]
fn numbers_are_read_as_the_standard_library_reads_them() {
    let samples = [
        "0", "7", "42", "007", "+5", "+", "", "-1", "-0", "1 ", " 1", "1_000", "0x10", "1.0",
        "18446744073709551615", "18446744073709551616", "99999999999999999999999",
        "00000000000000000000000000000000012", "\u{661}", "+ 1", "++1", "184467440737095516150",
    ];
    for sample in samples {
        assert_eq!(text::parse_u64(sample), sample.parse::<u64>().ok(), "{}", sample);
    }
    assert_eq!(text::parse_u64("42"), Some(42));
}

#[test]
fn numbers_are_written_as_the_standard_library_writes_them() {
    for number in [0, 1, 9, 10, 11, 99, 100, 1234567890, u64::MAX] {
        let written = text::decimal(number as u128);
        assert_eq!(written, format!("{}", number));
        assert_eq!(text::parse_u64(&written), Some(number));
        assert_eq!(text::pad_left(written, 2), format!("{:>2}", number));
    }
    assert_eq!(text::decimal(u128::MAX), format!("{}", u128::MAX));
}

#[test]
fn padding_counts_characters() {
    assert_eq!(text::pad_left("7".to_string(), 3), "  7");
    assert_eq!(text::pad_left("\u{b0}".to_string(), 2), " \u{b0}");
    assert_eq!(text::pad_left("1234".to_string(), 2), "1234");
    assert_eq!(text::pad_left("".to_string(), 0), "");
}
