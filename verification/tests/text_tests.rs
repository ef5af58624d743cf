use zkteco::text::{
    chars_contain, chars_le, contains, digit_str, is_space, join2, join3, join4, parse_chars,
    parse_digits, text_chars, trimmed_text,
};
use zkteco::time::{unpack_zk_time, ZkTime};
use zkteco::types::{copy_optional_text, DeviceConfig, DeviceInfo, SyncOptions};

fn is_white_space(c: char) -> bool {
    let u = c as u32;
    (0x09..=0x0d).contains(&u)
        || u == 0x20
        || u == 0x85
        || u == 0xa0
        || u == 0x1680
        || (0x2000..=0x200a).contains(&u)
        || u == 0x2028
        || u == 0x2029
        || u == 0x202f
        || u == 0x205f
        || u == 0x3000
}

fn month_days(year: i32, month: u32) -> u32 {
    let leap = year % 4 == 0 && (year % 100 != 0 || year % 400 == 0);
    match month {
        4 | 6 | 9 | 11 => 30,
        2 => {
            if leap {
                29
            } else {
                28
            }
        }
        1..=12 => 31,
        _ => 0,
    }
}

#[test]
fn digits_and_joins() {
    for d in 0..10u64 {
        assert_eq!(digit_str(d), format!("{}", d));
    }
    assert_eq!(join2("a", "b"), "ab");
    assert_eq!(join3("a", "", "c"), "ac");
    assert_eq!(join4("1", "2", "3", "4"), "1234");
}

#[test]
fn trimming_removes_the_whitespace_around_a_text() {
    assert_eq!(trimmed_text("  a b  "), "a b");
    assert_eq!(trimmed_text("\u{a0}\u{3000}x\u{2003}\n"), "x");
    assert_eq!(trimmed_text(" \t\r\n"), "");
    assert_eq!(trimmed_text(""), "");
    assert_eq!(trimmed_text("\u{200b}x"), "\u{200b}x");
}

#[test]
fn whitespace_is_the_white_space_property() {
    for u in 0..=0x10ffffu32 {
        if let Some(c) = char::from_u32(u) {
            assert_eq!(c.is_whitespace(), is_white_space(c), "character {:x}", u);
        }
    }
}

#[test]
fn calendar_has_the_days_of_the_gregorian_months() {
    for year in 0..=9999i32 {
        for month in 0..=13u32 {
            for day in [0u32, 1, 28, 29, 30, 31, 32] {
                let exists = day >= 1 && day <= month_days(year, month);
                assert_eq!(
                    chrono::NaiveDate::from_ymd_opt(year, month, day).is_some(),
                    exists,
                    "{}-{}-{}",
                    year,
                    month,
                    day
                );
            }
        }
    }
}

#[test]
fn packed_timestamp_fields() {
    assert_eq!(
        unpack_zk_time(0),
        ZkTime { year: 2000, month: 1, day: 1, hour: 0, minute: 0, second: 0 }
    );
    assert_eq!(
        unpack_zk_time(621355968),
        ZkTime { year: 2019, month: 4, day: 31, hour: 14, minute: 52, second: 48 }
    );
    assert_eq!(
        unpack_zk_time(u32::MAX),
        ZkTime { year: 2133, month: 8, day: 18, hour: 6, minute: 28, second: 15 }
    );
}

#[test]
fn records_are_copied_field_by_field() {
    let config = DeviceConfig {
        ip: "10.0.0.1".to_string(),
        port: 4370,
        comm_key: Some("12".to_string()),
        timeout: None,
    };
    let copy = config.duplicate();
    assert_eq!(copy.ip, "10.0.0.1");
    assert_eq!(copy.port, 4370);
    assert_eq!(copy.comm_key, Some("12".to_string()));
    assert_eq!(copy.timeout, None);
    assert_eq!(config.timeout_or(30000), 30000);
    assert_eq!(copy_optional_text(&None), None);
    let options = SyncOptions {
        mode: "range".to_string(),
        start_date: Some("2024-01-01".to_string()),
        end_date: None,
    };
    let copy = options.duplicate();
    assert_eq!(copy.mode, "range");
    assert_eq!(copy.start_date, Some("2024-01-01".to_string()));
    assert_eq!(copy.end_date, None);
    let info = DeviceInfo::with_counts(1, 2, "t".to_string());
    assert_eq!(info.serial_number, "Unknown");
    assert_eq!(info.firmware_version, "Unknown");
    assert_eq!((info.user_count, info.log_count), (1, 2));
    assert_eq!(info.last_activity, "t");
}

#[test]
fn characters_of_a_text() {
    assert_eq!(text_chars(""), Vec::<char>::new());
    assert_eq!(
        text_chars("a\u{e9}\u{65e5}\u{10000}"),
        vec!['a', '\u{e9}', '\u{65e5}', '\u{10000}']
    );
    let long: String = "0123456789".repeat(10000);
    assert_eq!(text_chars(&long).len(), 100000);
}

#[test]
fn character_runs_compare_and_parse() {
    assert!(chars_le(&['a', 'b'], &['a', 'c']));
    assert!(!chars_le(&['b'], &['a', 'c']));
    assert!(chars_le(&[], &[]));
    assert_eq!(parse_chars(&['4', '2'], 255), Some(42));
    assert_eq!(parse_chars(&['+', '4', '2'], 255), Some(42));
    assert_eq!(parse_chars(&['2', '5', '6'], 255), None);
    assert_eq!(parse_chars(&[], 255), None);
    assert_eq!(parse_chars(&['4', ' '], 255), None);
}

#[test]
fn trimming_agrees_with_the_standard_library() {
    for text in [
        "", " ", "a", " a", "a ", " a ", "\u{3000}\u{a0} a b \u{2028}\u{85}", "\u{feff}a",
        "\n\n", "a\u{200a}", "\u{180e}a", "  \u{e9}  ",
    ] {
        assert_eq!(trimmed_text(text), text.trim(), "text {:?}", text);
    }
}

#[test]
fn searching_agrees_with_the_standard_library() {
    let hays = ["", "a", "abc", "aab", "abab", "timeout waiting", "\u{e9}t\u{e9}", "aaa"];
    let needles = ["", "a", "b", "ab", "abc", "abcd", "bab", "t\u{e9}", "aa", "aaaa", "timeout"];
    for hay in hays {
        for needle in needles {
            assert_eq!(contains(hay, needle), hay.contains(needle), "{:?} in {:?}", needle, hay);
            let h: Vec<char> = hay.chars().collect();
            let p: Vec<char> = needle.chars().collect();
            assert_eq!(chars_contain(&h, &p), hay.contains(needle));
        }
    }
}

#[test]
fn whitespace_test_is_the_white_space_property() {
    for u in 0..=0x10ffffu32 {
        if let Some(c) = char::from_u32(u) {
            assert_eq!(is_space(c), c.is_whitespace(), "character {:x}", u);
        }
    }
}

#[test]
fn digit_runs_take_no_sign() {
    assert_eq!(parse_digits(&['4', '2'], 255), Some(42));
    assert_eq!(parse_digits(&['0', '0', '7'], 255), Some(7));
    assert_eq!(parse_digits(&['2', '5', '5'], 255), Some(255));
    assert_eq!(parse_digits(&['2', '5', '6'], 255), None);
    assert_eq!(parse_digits(&['+', '4'], 255), None);
    assert_eq!(parse_digits(&['-', '4'], 255), None);
    assert_eq!(parse_digits(&[], 255), None);
}
