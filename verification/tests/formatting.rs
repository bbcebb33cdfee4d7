use loap::text::{i64_to_decimal, u64_to_decimal};
use loap::utils::{fmt_duration, fmt_email, size_scale};

#[test]
fn email_letters_are_swapped_for_look_alikes() {
    assert_eq!(fmt_email("a.o"), "\u{430}\u{200C}\u{B7}\u{585}");
}

#[test]
fn email_vowels_cycle_by_position() {
    assert_eq!(
        fmt_email("uu@do.e"),
        "\u{57D}\u{200C}\u{3C5}\u{FF20}\u{501}\u{200C}\u{3BF}\u{B7}\u{435}\u{200C}"
    );
}

#[test]
fn email_other_characters_are_kept() {
    assert_eq!(fmt_email("kiedtl"), "k\u{200C}i\u{435}\u{501}\u{200C}tl");
}

#[test]
fn email_empty() {
    assert_eq!(fmt_email(""), "");
}

#[test]
fn email_hides_separators() {
    let s = fmt_email("someone.else@example.org");
    assert!(!s.contains('@'));
    assert!(!s.contains('.'));
    assert_eq!(s.chars().count(), 24 + (24 + 2) / 3);
}

#[test]
fn duration_minutes_and_seconds() {
    assert_eq!(fmt_duration(65), "1m 5s");
    assert_eq!(fmt_duration(754), "12m 34s");
}

#[test]
fn duration_zero_is_empty() {
    assert_eq!(fmt_duration(0), "");
}

#[test]
fn duration_skips_zero_units() {
    assert_eq!(fmt_duration(3600), "1h");
    assert_eq!(fmt_duration(59), "59s");
}

#[test]
fn duration_keeps_three_largest_units() {
    assert_eq!(fmt_duration(90061), "1d 1h 1m");
    assert_eq!(fmt_duration(183900), "2d 3h 5m");
}

#[test]
fn duration_shows_weeks() {
    assert_eq!(fmt_duration(691200), "1w 1d");
    assert_eq!(fmt_duration(2290114), "3w 5d 12h");
    assert_eq!(fmt_duration(-2290114), "-3w -5d -12h");
}

#[test]
fn duration_negative_keeps_sign_in_each_unit() {
    assert_eq!(fmt_duration(-65), "-1m -5s");
}

#[test]
fn duration_extremes() {
    assert_eq!(fmt_duration(i64::MIN), "-15250284452471w -3d -15h");
    assert_eq!(fmt_duration(i64::MAX), "15250284452471w 3d 15h");
}

#[test]
fn size_scale_bands() {
    assert_eq!(size_scale(0), (0, 1, ""));
    assert_eq!(size_scale(999), (0, 1, ""));
    assert_eq!(size_scale(1000), (1, 1000, " KB"));
    assert_eq!(size_scale(999_999), (1, 1000, " KB"));
    assert_eq!(size_scale(1_000_000), (2, 1_000_000, " MB"));
    assert_eq!(size_scale(999_999_999), (2, 1_000_000, " MB"));
    assert_eq!(size_scale(1_000_000_000), (3, 1_000_000_000, " GB"));
    assert_eq!(size_scale(u32::MAX), (3, 1_000_000_000, " GB"));
}

#[test]
fn decimal_rendering() {
    assert_eq!(u64_to_decimal(0), "0");
    assert_eq!(u64_to_decimal(1234567890), "1234567890");
    assert_eq!(u64_to_decimal(u64::MAX), "18446744073709551615");
    assert_eq!(i64_to_decimal(-42), "-42");
    assert_eq!(i64_to_decimal(i64::MIN), "-9223372036854775808");
    assert_eq!(i64_to_decimal(i64::MAX), "9223372036854775807");
}

#[test]
fn email_disguise_splits_after_six_characters() {
    let a = "abcdef";
    let b = "uo.x@e";
    assert_eq!(fmt_email(&format!("{a}{b}")), format!("{}{}", fmt_email(a), fmt_email(b)));
}

#[test]
fn duration_of_negation_negates_each_unit() {
    for x in [1i64, 65, 3600, 90061, 2290114] {
        let neg: Vec<String> =
            fmt_duration(x).split_whitespace().map(|p| format!("-{p}")).collect();
        assert_eq!(fmt_duration(-x), neg.join(" "));
    }
}
