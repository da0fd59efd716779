use antinuke::time::{
    pht_offset, stamp_text, Moment, FIRST_SECOND, LAST_SECOND,
};
use chrono::{DateTime, FixedOffset, TimeDelta, Utc};

fn at(secs: i64, nanos: u32) -> Moment {
    Moment { secs, nanos }
}

#[test]
fn clock_is_eight_hours_east() {
    assert_eq!(pht_offset(), 8 * 3600);
    assert_eq!(stamp_text(at(0, 0)), "1970-01-01T08:00:00+08:00");
    assert_eq!(stamp_text(at(0, 1_000_000)), "1970-01-01T08:00:00.001+08:00");
}

#[test]
fn stamps_are_those_of_the_calendar() {
    let zone = FixedOffset::east_opt(28_800).unwrap();
    for (secs, nanos) in [(1_700_000_000, 0), (1_700_000_000, 123_456_789), (-1, 999_999_999), (253_402_271_999, 0)] {
        let moment = DateTime::from_timestamp(secs, nanos).unwrap();
        assert_eq!(stamp_text(at(secs, nanos)), moment.with_timezone(&zone).to_rfc3339());
        let back = DateTime::parse_from_rfc3339(&stamp_text(at(secs, nanos))).unwrap();
        assert_eq!(back.timestamp(), secs);
        assert_eq!(back.timestamp_subsec_nanos(), nanos);
    }
}

#[test]
fn the_calendar_has_ends() {
    assert_eq!(DateTime::<Utc>::MIN_UTC.timestamp(), FIRST_SECOND);
    assert_eq!(DateTime::<Utc>::MAX_UTC.timestamp(), LAST_SECOND);
    assert_eq!(at(LAST_SECOND, 999_999_999).plus_seconds(0), Some(at(LAST_SECOND, 999_999_999)));
    assert_eq!(at(LAST_SECOND, 0).plus_seconds(1), None);
    assert_eq!(at(LAST_SECOND, 999_999_999).plus_seconds(1), None);
    assert_eq!(at(FIRST_SECOND, 0).plus_seconds(-1), None);
    assert_eq!(at(FIRST_SECOND, 0).plus_seconds(0), Some(at(FIRST_SECOND, 0)));
    assert_eq!(at(0, 5).plus_seconds(LAST_SECOND), Some(at(LAST_SECOND, 5)));
    assert_eq!(at(0, 0).plus_minutes(i64::MAX), None);
    assert_eq!(at(0, 0).plus_minutes(i64::MIN), None);
    assert_eq!(at(0, 0).plus_seconds(i64::MAX), None);
    assert_eq!(at(0, 0).plus_seconds(i64::MIN), None);
    // The first and the last second can also be written down.
    assert!(stamp_text(at(FIRST_SECOND, 0)).len() > 20);
    assert!(stamp_text(at(LAST_SECOND, 0)).len() > 20);
}

#[test]
fn sums_are_those_of_the_calendar() {
    let start = DateTime::from_timestamp(1_700_000_000, 250_000_000).unwrap();
    for minutes in [0i64, 1, 10, -10, 525_600] {
        let end = start + TimeDelta::try_minutes(minutes).unwrap();
        let sum = at(1_700_000_000, 250_000_000).plus_minutes(minutes).unwrap();
        assert_eq!(sum, at(end.timestamp(), end.timestamp_subsec_nanos()));
    }
}

#[test]
fn order_and_distance_agree() {
    let a = at(10, 999_999_999);
    let b = at(11, 0);
    assert!(a.is_before(&b));
    assert!(!b.is_before(&a));
    assert!(!a.is_before(&a));
    assert_eq!(b.nanos_since(&a), 1);
    assert_eq!(a.nanos_since(&b), -1);
    assert_eq!(a.millis(), 10_999);
    assert_eq!(at(-1, 1_000_000).millis(), -999);
}

#[test]
fn a_shift_is_undone() {
    let a = at(1_700_000_000, 7);
    assert_eq!(a.plus_seconds(-90).unwrap().plus_seconds(90), Some(a));
}
