use std::time::Duration;

use xjp_deploy_agent::collections::StrMap;
use xjp_deploy_agent::text::bytes::byte_prefix;
use xjp_deploy_agent::text::chars::{first_chars, last_chars};
use xjp_deploy_agent::text::duration::{millis_text, tenths};
use xjp_deploy_agent::text::edit::{
    eq_ignore_ascii_case, replace_all, replace_char, strip_prefix, strip_suffix, trim_end_char,
    trim_start_char, words,
};
use xjp_deploy_agent::text::number::{
    decimal, parse_i32, parse_i64, parse_u16, parse_u64, parse_u8, signed_decimal,
};
use xjp_deploy_agent::text::search::{contains, ends_with, starts_with};
use xjp_deploy_agent::text::split::{join, lines, split, split_once, trim};
use xjp_deploy_agent::time::{parse_offset, Timestamp, MAX_SECONDS};

#[test]
fn splits_at_every_separator() {
    assert_eq!(split("a,b,,c", ','), vec!["a", "b", "", "c"]);
}

#[test]
fn joining_undoes_splitting() {
    assert_eq!(split("", ','), vec![""]);
    let parts = split("a,b,,c,", ',');
    assert_eq!(parts.len(), 5);
    assert_eq!(join(&parts, ","), "a,b,,c,");
    assert_eq!(join(&Vec::new(), ", "), "");
    assert_eq!(split_once("k=v=w", '='), Some(("k".to_string(), "v=w".to_string())));
    assert_eq!(split_once("k", '='), None);
}

#[test]
fn lines_end_as_those_of_std_do() {
    for text in ["", "a", "a\n", "a\r\nb", "\n\n", "a\r", "x\ny\n\nz"] {
        let expected: Vec<String> = text.lines().map(|l| l.to_string()).collect();
        assert_eq!(lines(text), expected, "{:?}", text);
    }
}

#[test]
fn trims_white_space_of_every_kind() {
    for text in ["", "  ", " a b ", "\u{a0}x\u{2003}", "\tq\r\n", "\u{200b}z"] {
        assert_eq!(trim(text), text.trim());
    }
    assert_eq!(trim_start_char("//a/", '/'), "a/");
    assert_eq!(trim_end_char("a//", '/'), "a");
}

#[test]
fn numbers_are_read_as_std_reads_them() {
    for text in ["", "0", "00", "+7", "-1", "255", "256", "65535", "65536", " 1", "1a", "+"] {
        assert_eq!(parse_u8(text), text.parse().ok(), "{}", text);
        assert_eq!(parse_u16(text), text.parse().ok(), "{}", text);
        assert_eq!(parse_u64(text), text.parse().ok(), "{}", text);
        assert_eq!(parse_i32(text), text.parse().ok(), "{}", text);
    }
    for text in ["-9223372036854775808", "9223372036854775807", "9223372036854775808", "-"] {
        assert_eq!(parse_i64(text), text.parse().ok(), "{}", text);
    }
    assert_eq!(parse_u64("18446744073709551615"), Some(u64::MAX));
    assert_eq!(parse_u64("18446744073709551616"), None);
}

#[test]
fn numbers_are_written_and_read_back() {
    for n in [0, 9, 10, 1000, u64::MAX] {
        assert_eq!(decimal(n), n.to_string());
        assert_eq!(parse_u64(&decimal(n)), Some(n));
    }
    for n in [i64::MIN, -1, 0, i64::MAX] {
        assert_eq!(signed_decimal(n), n.to_string());
    }
}

#[test]
fn looks_for_parts_of_a_text() {
    assert!(contains("abcabd", "abd"));
    assert!(contains("", ""));
    assert!(!contains("ab", "abc"));
    assert!(starts_with("PROJECT_A", "PROJECT_"));
    assert!(ends_with("A_DIR", "_DIR"));
    assert!(!ends_with("DIR", "_DIR"));
    assert_eq!(strip_prefix("PROJECT_DIR", "PROJECT_"), Some("DIR".to_string()));
    assert_eq!(strip_suffix("DIR", "_DIR"), None);
}

#[test]
fn edits_texts() {
    assert_eq!(replace_char("a_b_", '_', '-'), "a-b-");
    assert_eq!(replace_all("aaa", "aa", "b"), "ba");
    assert_eq!(replace_all("x{version}y{version}", "{version}", "1"), "x1y1");
    assert_eq!(words("  a\tb \n c"), vec!["a", "b", "c"]);
    assert!(eq_ignore_ascii_case("X-Api-Key", "x-api-key"));
    assert!(!eq_ignore_ascii_case("\u{c4}", "\u{e4}"));
}

#[test]
fn texts_are_cut_between_characters() {
    assert_eq!(byte_prefix("abcdef", 4), "abcd");
    assert_eq!(byte_prefix("a\u{4e2d}b", 3), "a");
    assert_eq!(byte_prefix("a\u{4e2d}b", 4), "a\u{4e2d}");
    assert_eq!(first_chars("a\u{4e2d}bc", 2), "a\u{4e2d}");
    assert_eq!(last_chars("a\u{4e2d}bc", 3), "\u{4e2d}bc");
    assert_eq!(first_chars("ab", 2), "ab");
    assert_eq!(last_chars("ab", 10), "ab");
}

#[test]
fn tables_keep_the_order_of_their_keys() {
    let mut table: StrMap<u32> = StrMap::new();
    table.insert("b".to_string(), 1);
    table.insert("a".to_string(), 2);
    table.insert("b".to_string(), 3);
    assert_eq!(table.names(), vec!["b", "a"]);
    assert_eq!(table.get("b"), Some(&3));
    assert_eq!(table.remove("b"), Some(3));
    assert_eq!(table.remove("b"), None);
    assert_eq!(table.len(), 1);
}

#[test]
fn times_are_measured_and_written() {
    let start = Timestamp::new(0, 0).unwrap();
    let later = start.plus_seconds(3_725).unwrap();
    assert_eq!(later.to_rfc3339(), "1970-01-01T01:02:05+00:00");
    assert_eq!(later.to_seconds_text(), "1970-01-01 01:02:05");
    assert_eq!(later.hours_since(&start), 1);
    assert_eq!(start.hours_since(&later), -1);
    assert_eq!(later.millis_since(&start), 3_725_000);
    assert!(Timestamp::new(0, 1_000_000_000).is_none());
    assert!(Timestamp::new(MAX_SECONDS, 0).unwrap().plus_seconds(1).is_none());
    let read = parse_offset("1970-01-01T02:00:00+0100").unwrap();
    assert_eq!((read.secs, read.nanos), (3600, 0));
    let leap = parse_offset("2016-12-31T23:59:60+0000").unwrap();
    assert_eq!((leap.secs, leap.nanos), (1_483_228_799, 1_000_000_000));
    assert!(parse_offset("1970-01-01 02:00:00").is_none());
}

#[test]
fn seconds_have_one_decimal() {
    assert_eq!(tenths(0), "0.0");
    assert_eq!(tenths(250_000_000), "0.2");
    assert_eq!(tenths(150_000_000), "0.1");
    assert_eq!(tenths(50_000_000), "0.1");
    assert_eq!(tenths(750_000_000), "0.8");
    assert_eq!(tenths(1_350_000_000), "1.4");
    assert_eq!(tenths(59_999_999_999), "60.0");
    let written = |ns: u64| format!("{:.1}", Duration::from_nanos(ns).as_secs_f64());
    for half in 0..40_000u64 {
        let ns = half * 100_000_000 + 50_000_000;
        for near in [ns - 1, ns, ns + 1] {
            assert_eq!(tenths(near), written(near), "{near}");
        }
    }
    let mut ns: u64 = u64::MAX;
    while ns > 0 {
        assert_eq!(tenths(ns), written(ns), "{ns}");
        ns -= ns / 1000 + 1;
    }
}

#[test]
fn milliseconds_are_written_as_seconds() {
    assert_eq!(millis_text(0), "0ns");
    assert_eq!(millis_text(999), "999ms");
    assert_eq!(millis_text(1000), "1s");
    assert_eq!(millis_text(1050), "1.05s");
    for ms in (0..20_000u64).chain([u64::MAX - 1, u64::MAX]) {
        assert_eq!(millis_text(ms), format!("{:?}", Duration::from_millis(ms)));
    }
}
