use caiu_perdeu::clock::{elapsed_seconds, format_utc, Timestamp, MAX_SECS, MIN_SECS, NANOS_PER_SEC};
use caiu_perdeu::text::{decimal_text, push_decimal, push_signed_decimal};
use chrono::{DateTime, Utc};

fn at(secs: i64, nanos: u32) -> Timestamp {
    Timestamp::new(secs, nanos).unwrap()
}

#[test]
fn timestamp_keeps_its_parts() {
    let t = at(1_431_648_000, 250);
    assert_eq!(t.secs(), 1_431_648_000);
    assert_eq!(t.nanos(), 250);
    assert_eq!(t, at(1_431_648_000, 250));
    assert_ne!(t, at(1_431_648_000, 251));
}

#[test]
fn timestamp_accepts_the_ends_of_the_range() {
    assert!(Timestamp::new(MIN_SECS, 0).is_some());
    assert!(Timestamp::new(MAX_SECS, NANOS_PER_SEC - 1).is_some());
    assert!(Timestamp::new(0, 0).is_some());
}

#[test]
fn timestamp_rejects_what_lies_outside() {
    assert!(Timestamp::new(MIN_SECS - 1, 0).is_none());
    assert!(Timestamp::new(MAX_SECS + 1, 0).is_none());
    assert!(Timestamp::new(i64::MIN, 0).is_none());
    assert!(Timestamp::new(i64::MAX, 0).is_none());
    assert!(Timestamp::new(0, NANOS_PER_SEC).is_none());
    assert!(Timestamp::new(59, 1_500_000_000).is_none());
    assert!(Timestamp::new(0, u32::MAX).is_none());
}

#[test]
fn range_is_the_range_of_chrono() {
    assert_eq!(DateTime::<Utc>::MIN_UTC.timestamp(), MIN_SECS);
    assert_eq!(DateTime::<Utc>::MAX_UTC.timestamp(), MAX_SECS);
    assert!(DateTime::from_timestamp(MIN_SECS, 0).is_some());
    assert!(DateTime::from_timestamp(MIN_SECS - 1, 0).is_none());
    assert!(DateTime::from_timestamp(MAX_SECS, NANOS_PER_SEC - 1).is_some());
    assert!(DateTime::from_timestamp(MAX_SECS + 1, 0).is_none());
}

#[test]
fn elapsed_seconds_counts_whole_seconds() {
    assert_eq!(elapsed_seconds(at(100, 0), at(100, 0)), 0);
    assert_eq!(elapsed_seconds(at(100, 0), at(3_825, 0)), 3_725);
    assert_eq!(elapsed_seconds(at(0, 0), at(1, 0)), 1);
    assert_eq!(elapsed_seconds(at(-5, 0), at(5, 0)), 10);
}

#[test]
fn elapsed_seconds_drops_the_fraction() {
    assert_eq!(elapsed_seconds(at(10, 900_000_000), at(12, 100_000_000)), 1);
    assert_eq!(elapsed_seconds(at(10, 100_000_000), at(12, 900_000_000)), 2);
    assert_eq!(elapsed_seconds(at(10, 0), at(10, 999_999_999)), 0);
    assert_eq!(elapsed_seconds(at(10, 999_999_999), at(11, 0)), 0);
    assert_eq!(elapsed_seconds(at(10, 999_999_999), at(11, 999_999_999)), 1);
}

#[test]
fn elapsed_seconds_rounds_toward_zero_when_negative() {
    assert_eq!(elapsed_seconds(at(12, 100_000_000), at(10, 900_000_000)), -1);
    assert_eq!(elapsed_seconds(at(12, 900_000_000), at(10, 100_000_000)), -2);
    assert_eq!(elapsed_seconds(at(10, 999_999_999), at(10, 0)), 0);
    assert_eq!(elapsed_seconds(at(11, 0), at(10, 999_999_999)), 0);
    assert_eq!(elapsed_seconds(at(3_825, 0), at(100, 0)), -3_725);
}

#[test]
fn elapsed_seconds_spans_the_whole_range() {
    let first = at(MIN_SECS, 0);
    let last = at(MAX_SECS, NANOS_PER_SEC - 1);
    assert_eq!(elapsed_seconds(first, last), MAX_SECS - MIN_SECS);
    assert_eq!(elapsed_seconds(last, first), MIN_SECS - MAX_SECS);
}

#[test]
fn elapsed_seconds_is_what_chrono_computes() {
    let secs = [-86_401i64, -61, -1, 0, 1, 59, 60, 3_600, 86_399, 86_400, 1_700_000_000];
    let nanos = [0u32, 1, 499_999_999, 500_000_000, 999_999_999];
    for &s1 in &secs {
        for &n1 in &nanos {
            for &s2 in &secs {
                for &n2 in &nanos {
                    let total = (s2 as i128 - s1 as i128) * 1_000_000_000 + (n2 as i128 - n1 as i128);
                    let expected = (total / 1_000_000_000) as i64;
                    assert_eq!(elapsed_seconds(at(s1, n1), at(s2, n2)), expected);
                }
            }
        }
    }
}

#[test]
fn format_utc_writes_date_and_time() {
    assert_eq!(format_utc(at(0, 0)), "1970-01-01 00:00:00");
    assert_eq!(format_utc(at(1_431_648_000, 0)), "2015-05-15 00:00:00");
    assert_eq!(format_utc(at(1_700_000_000, 123_456_789)), "2023-11-14 22:13:20");
    assert_eq!(format_utc(at(-1, 999_999_999)), "1969-12-31 23:59:59");
}

#[test]
fn format_utc_differs_from_instant_to_instant() {
    assert_ne!(format_utc(at(0, 0)), format_utc(at(1, 0)));
    assert_eq!(format_utc(at(5, 0)), format_utc(at(5, 999)));
}

#[test]
fn decimal_text_of_small_and_large() {
    assert_eq!(decimal_text(0), "0");
    assert_eq!(decimal_text(7), "7");
    assert_eq!(decimal_text(10), "10");
    assert_eq!(decimal_text(120), "120");
    assert_eq!(decimal_text(1_234_567_890), "1234567890");
    assert_eq!(decimal_text(u64::MAX), "18446744073709551615");
}

#[test]
fn decimal_text_agrees_with_std() {
    let mut n: u64 = 1;
    for _ in 0..64 {
        assert_eq!(decimal_text(n), n.to_string());
        assert_eq!(decimal_text(n - 1), (n - 1).to_string());
        n = n.wrapping_mul(2);
    }
}

#[test]
fn push_decimal_appends() {
    let mut out = String::from("n=");
    push_decimal(&mut out, 42);
    push_decimal(&mut out, 0);
    assert_eq!(out, "n=420");
}

#[test]
fn push_signed_decimal_writes_the_sign() {
    for n in [0i64, 5, -5, 60, -60, 3_725, -3_725, i64::MAX, i64::MIN, i64::MIN + 1] {
        let mut out = String::from("x");
        push_signed_decimal(&mut out, n);
        assert_eq!(out, format!("x{}", n));
    }
}
