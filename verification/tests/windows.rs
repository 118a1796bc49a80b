//! Window boundaries on fixed instants: calendar alignment, year borrow,
//! day subtraction across month and leap-year boundaries, idempotence,
//! and the rendered time labels.

use octo_exporter::calendar::{
    all_windows, compute_window_start, get_month_range, get_year_range, instant_from_fields,
    instant_minus_days, Instant, WindowLabel,
};
use octo_exporter::timefmt::{
    format_minute_precision, format_second_precision, parse_second_precision,
};

fn instant(year: i32, month: u8, day: u8, hour: u8, minute: u8, second: u8) -> Instant {
    Instant { year, month, day, hour, minute, second, nanosecond: 0 }
}

#[test]
fn instant_fields_are_validated_exactly() {
    // a real leap day is accepted, unchanged
    assert_eq!(
        instant_from_fields(2024, 2, 29, 23, 59, 59, 1_999_999_999),
        Some(Instant {
            year: 2024,
            month: 2,
            day: 29,
            hour: 23,
            minute: 59,
            second: 59,
            nanosecond: 1_999_999_999,
        })
    );
    // every field's boundary is enforced
    assert_eq!(instant_from_fields(-1, 1, 1, 0, 0, 0, 0), None);
    assert_eq!(instant_from_fields(10000, 1, 1, 0, 0, 0, 0), None);
    assert_eq!(instant_from_fields(2025, 0, 1, 0, 0, 0, 0), None);
    assert_eq!(instant_from_fields(2025, 13, 1, 0, 0, 0, 0), None);
    assert_eq!(instant_from_fields(2025, 2, 0, 0, 0, 0, 0), None);
    assert_eq!(instant_from_fields(2025, 2, 29, 0, 0, 0, 0), None);
    assert_eq!(instant_from_fields(2025, 4, 31, 0, 0, 0, 0), None);
    assert_eq!(instant_from_fields(2025, 8, 1, 24, 0, 0, 0), None);
    assert_eq!(instant_from_fields(2025, 8, 1, 0, 60, 0, 0), None);
    assert_eq!(instant_from_fields(2025, 8, 1, 0, 0, 60, 0), None);
    assert_eq!(instant_from_fields(2025, 8, 1, 0, 0, 0, 2_000_000_000), None);
}

#[test]
fn month_window_borrows_across_year_start() {
    let now = instant(2026, 1, 15, 10, 30, 0);
    let (start, end) = get_month_range(&now, 2).unwrap();
    assert_eq!(start, instant(2025, 11, 1, 0, 0, 0));
    assert_eq!(end, now);

    let (start, _) = get_month_range(&now, 6).unwrap();
    assert_eq!(start, instant(2025, 7, 1, 0, 0, 0));

    let (start, _) = get_month_range(&now, 13).unwrap();
    assert_eq!(start, instant(2024, 12, 1, 0, 0, 0));
}

#[test]
fn month_window_fails_below_era() {
    let now = instant(0, 2, 10, 0, 0, 0);
    assert!(get_month_range(&now, 3).is_err());
    assert!(get_month_range(&now, 1).is_ok());
}

#[test]
fn year_window_keeps_month_and_forces_day_one() {
    let now = instant(2025, 8, 23, 17, 45, 59);
    let (start, end) = get_year_range(&now, 1).unwrap();
    assert_eq!(start, instant(2024, 8, 1, 0, 0, 0));
    assert_eq!(end, now);
    assert!(get_year_range(&instant(0, 3, 1, 0, 0, 0), 1).is_err());
}

#[test]
fn day_subtraction_crosses_months_and_leap_years() {
    let now = instant(2025, 3, 1, 6, 0, 0);
    assert_eq!(instant_minus_days(&now, 2).unwrap(), instant(2025, 2, 27, 6, 0, 0));

    let leap = instant(2024, 3, 1, 6, 0, 0);
    assert_eq!(instant_minus_days(&leap, 2).unwrap(), instant(2024, 2, 28, 6, 0, 0));

    let new_year = instant(2025, 1, 1, 0, 0, 0);
    assert_eq!(instant_minus_days(&new_year, 1).unwrap(), instant(2024, 12, 31, 0, 0, 0));

    assert!(instant_minus_days(&instant(0, 1, 1, 0, 0, 0), 1).is_err());
}

#[test]
fn all_windows_has_the_fixed_label_set() {
    let now = instant(2025, 8, 15, 12, 34, 56);
    let windows = all_windows(&now).unwrap();
    let labels: Vec<WindowLabel> = windows.iter().map(|w| w.label).collect();
    assert_eq!(
        labels,
        vec![
            WindowLabel::TwoDays,
            WindowLabel::OneWeek,
            WindowLabel::TwoWeeks,
            WindowLabel::FourWeeks,
            WindowLabel::OneMonth,
            WindowLabel::TwoMonths,
            WindowLabel::ThreeMonths,
            WindowLabel::SixMonths,
            WindowLabel::OneYear,
        ]
    );
    for w in &windows {
        assert_eq!(w.end, now);
    }
    assert_eq!(windows[0].start, instant(2025, 8, 13, 12, 34, 56));
    assert_eq!(windows[1].start, instant(2025, 8, 8, 12, 34, 56));
    assert_eq!(windows[2].start, instant(2025, 8, 1, 12, 34, 56));
    assert_eq!(windows[3].start, instant(2025, 7, 18, 12, 34, 56));
    assert_eq!(windows[4].start, instant(2025, 8, 1, 0, 0, 0));
    assert_eq!(windows[5].start, instant(2025, 6, 1, 0, 0, 0));
    assert_eq!(windows[6].start, instant(2025, 5, 1, 0, 0, 0));
    assert_eq!(windows[7].start, instant(2025, 2, 1, 0, 0, 0));
    assert_eq!(windows[8].start, instant(2024, 8, 1, 0, 0, 0));
}

#[test]
fn window_starts_are_idempotent() {
    let now = instant(2025, 8, 15, 12, 34, 56);
    let labels = [
        WindowLabel::TwoDays,
        WindowLabel::OneWeek,
        WindowLabel::TwoWeeks,
        WindowLabel::FourWeeks,
        WindowLabel::OneMonth,
        WindowLabel::TwoMonths,
        WindowLabel::ThreeMonths,
        WindowLabel::SixMonths,
        WindowLabel::OneYear,
    ];
    for label in labels {
        let first = compute_window_start(&now, label);
        let second = compute_window_start(&now, label);
        assert_eq!(first, second);
    }
}

#[test]
fn second_precision_label_is_zero_padded() {
    let t = instant(2025, 8, 1, 0, 5, 9);
    assert_eq!(format_second_precision(&t), "2025-08-01T00:05:09Z");
    let early = instant(33, 12, 31, 23, 59, 59);
    assert_eq!(format_second_precision(&early), "0033-12-31T23:59:59Z");
}

#[test]
fn minute_precision_label_truncates_seconds() {
    let t = instant(2025, 8, 1, 12, 34, 56);
    assert_eq!(format_minute_precision(&t), "2025-08-01T12:34Z");
}

#[test]
fn second_precision_labels_parse_back() {
    let t = instant(2025, 8, 1, 0, 5, 9);
    assert_eq!(parse_second_precision(&format_second_precision(&t)), Some(t));
    assert_eq!(
        parse_second_precision("2024-02-29T23:59:59Z"),
        Some(instant(2024, 2, 29, 23, 59, 59))
    );
}

#[test]
fn malformed_labels_do_not_parse() {
    assert_eq!(parse_second_precision(""), None);
    assert_eq!(parse_second_precision("2025-08-01T12:34Z"), None);
    assert_eq!(parse_second_precision("2025-08-01 12:34:56"), None);
    assert_eq!(parse_second_precision("2025-13-01T00:00:00Z"), None);
    assert_eq!(parse_second_precision("2025-02-29T00:00:00Z"), None);
    assert_eq!(parse_second_precision("2025-08-00T00:00:00Z"), None);
    assert_eq!(parse_second_precision("2025-08-01T24:00:00Z"), None);
    assert_eq!(parse_second_precision("2025-08-01T00:60:00Z"), None);
    assert_eq!(parse_second_precision("20a5-08-01T00:00:00Z"), None);
}
