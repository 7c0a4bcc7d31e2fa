use quickwit_console::time_range::{date_parts, format_utc, EARLIEST_NOW};
use quickwit_console::{DateRange, UtcInstant};

const NOW: i64 = 1_700_000_000;

#[test]
fn presets_subtract_their_span() {
    assert_eq!(DateRange::Last15Min.start_timestamp(NOW), NOW - 900);
    assert_eq!(DateRange::Last30Min.start_timestamp(NOW), NOW - 1800);
    assert_eq!(DateRange::Last1Hour.start_timestamp(NOW), NOW - 3600);
    assert_eq!(DateRange::Last7Days.start_timestamp(NOW), NOW - 7 * 86_400);
    assert_eq!(DateRange::Last30Days.start_timestamp(NOW), NOW - 30 * 86_400);
    assert_eq!(DateRange::Last3Months.start_timestamp(NOW), NOW - 90 * 86_400);
    assert_eq!(DateRange::LastYear.start_timestamp(NOW), NOW - 365 * 86_400);
}

#[test]
fn shifting_the_clock_by_the_span() {
    let presets = [
        (DateRange::Last15Min, 900),
        (DateRange::Last30Min, 1800),
        (DateRange::Last1Hour, 3600),
        (DateRange::Last7Days, 7 * 86_400),
        (DateRange::Last30Days, 30 * 86_400),
        (DateRange::Last3Months, 90 * 86_400),
        (DateRange::LastYear, 365 * 86_400),
    ];
    for (range, span) in presets {
        assert_eq!(range.start_timestamp(NOW + span), NOW);
        assert!(range.start_timestamp(NOW) <= range.start_timestamp(NOW + 1));
    }
}

#[test]
fn earliest_clock_reading() {
    assert_eq!(
        DateRange::LastYear.start_timestamp(EARLIEST_NOW),
        i64::MIN
    );
}

#[test]
fn two_resolutions_at_different_times_differ() {
    assert_ne!(
        DateRange::Last1Hour.start_timestamp(NOW),
        DateRange::Last1Hour.start_timestamp(NOW + 60)
    );
}

#[test]
fn custom_range_sends_start_in_seconds() {
    let start = UtcInstant::from_timestamp(1_600_000_000, 5).unwrap();
    let end = UtcInstant::from_timestamp(1_600_003_600, 0).unwrap();
    let range = DateRange::Custom { start, end };
    assert_eq!(range.start_timestamp(NOW), 1_600_000_000);
    assert_eq!(range.start_timestamp(i64::MIN), 1_600_000_000);
    assert_eq!(range.resolve_at(NOW), Some(1_600_000_000));
    assert_eq!(range.resolve_at(i64::MIN), Some(1_600_000_000));
}

#[test]
fn preset_resolution_at_a_clock_reading() {
    assert_eq!(DateRange::Last15Min.resolve_at(NOW), Some(NOW - 900));
    assert_eq!(DateRange::LastYear.resolve_at(EARLIEST_NOW), Some(i64::MIN));
    assert_eq!(DateRange::LastYear.resolve_at(EARLIEST_NOW - 1), None);
    assert_eq!(DateRange::Last15Min.resolve_at(i64::MIN), None);
}

#[test]
fn preset_labels() {
    assert_eq!(DateRange::Last15Min.as_str(), "Last 15 min");
    assert_eq!(DateRange::Last30Min.label(), "Last 30 min");
    assert_eq!(DateRange::Last1Hour.label(), "Last 1 hour");
    assert_eq!(DateRange::Last7Days.label(), "Last 7 days");
    assert_eq!(DateRange::Last30Days.label(), "Last 30 days");
    assert_eq!(DateRange::Last3Months.label(), "Last 3 months");
    assert_eq!(DateRange::LastYear.label(), "Last year");
}

#[test]
fn custom_label_shows_both_instants() {
    let start = UtcInstant::from_timestamp(0, 0).unwrap();
    let end = UtcInstant::from_timestamp(86_400 + 3_661, 0).unwrap();
    let range = DateRange::Custom { start, end };
    assert_eq!(range.as_str(), "Custom");
    assert_eq!(range.label(), "1970/01/01 00:00:00 - 1970/01/02 01:01:01");
}

#[test]
fn unrepresentable_instant_is_refused() {
    assert_eq!(UtcInstant::from_timestamp(i64::MAX, 0), None);
    assert_eq!(
        UtcInstant::from_timestamp(5, 7),
        Some(UtcInstant { secs: 5, nanos: 7 })
    );
}

#[test]
fn created_at_to_the_minute() {
    assert_eq!(format_utc(0).unwrap(), "1970/01/01 00:00");
    assert_eq!(format_utc(1_700_000_000).unwrap(), "2023/11/14 22:13");
    assert_eq!(format_utc(i64::MAX), None);
}

#[test]
fn date_and_time_of_nanosecond_timestamp() {
    assert_eq!(
        date_parts(1000),
        Some(("1970/01/01".to_string(), "00:00:00".to_string()))
    );
    assert_eq!(
        date_parts(-1),
        Some(("1969/12/31".to_string(), "23:59:59".to_string()))
    );
}
