use reading_features::common::calendar::{parse_iso_date, CalendarDate};
use reading_features::common::clock::{parse_hh_mm, LocalTime, Timestamp};

#[test]
fn calendar_dates_follow_gregorian_rules() {
    assert!(CalendarDate::from_ymd(2024, 2, 29).is_some());
    assert!(CalendarDate::from_ymd(2023, 2, 29).is_none());
    assert!(CalendarDate::from_ymd(1900, 2, 29).is_none());
    assert!(CalendarDate::from_ymd(2000, 2, 29).is_some());
    assert!(CalendarDate::from_ymd(2026, 4, 31).is_none());
    assert!(CalendarDate::from_ymd(2026, 13, 1).is_none());
    assert!(CalendarDate::from_ymd(262142, 12, 31).is_some());
    assert!(CalendarDate::from_ymd(262143, 1, 1).is_none());
    assert!(CalendarDate::from_ymd(-262143, 1, 1).is_some());
    assert!(CalendarDate::from_ymd(-262144, 1, 1).is_none());
}

#[test]
fn iso_dates_parse_and_print() {
    let d = parse_iso_date("2026-06-01").unwrap();
    assert_eq!(d, CalendarDate { year: 2026, month: 6, day: 1 });
    assert_eq!(d.to_iso_string(), "2026-06-01");
    assert!(parse_iso_date("2026-02-30").is_none());
    assert!(parse_iso_date("June 1").is_none());
    assert_eq!(CalendarDate::from_ymd(33, 1, 2).unwrap().to_iso_string(), "0033-01-02");
    assert_eq!(CalendarDate::from_ymd(-1, 1, 2).unwrap().to_iso_string(), "-0001-01-02");
    assert_eq!(CalendarDate::from_ymd(12345, 6, 7).unwrap().to_iso_string(), "+12345-06-07");
    assert_eq!(CalendarDate::from_ymd(-262143, 1, 1).unwrap().to_iso_string(), "-262143-01-01");
}

#[test]
fn times_parse_and_print() {
    let t = parse_hh_mm("09:05").unwrap();
    assert_eq!(t, LocalTime { hour: 9, minute: 5, second: 0, nanosecond: 0 });
    assert_eq!(t.to_hh_mm(), "09:05");
    assert!(parse_hh_mm("24:00").is_none());
    assert!(parse_hh_mm("9-05").is_none());
}

#[test]
fn timestamps_order_by_seconds_then_nanoseconds() {
    let a = Timestamp { secs: 5, nanos: 10 };
    assert!(a.not_after(&a));
    assert!(a.not_after(&Timestamp { secs: 5, nanos: 11 }));
    assert!(a.not_after(&Timestamp { secs: 6, nanos: 0 }));
    assert!(!a.not_after(&Timestamp { secs: 5, nanos: 9 }));
}

#[test]
fn times_of_day_are_checked() {
    let t = LocalTime::from_hms_nano(7, 30, 0, 0).unwrap();
    assert_eq!((t.hour, t.minute, t.second, t.nanosecond), (7, 30, 0, 0));
    assert!(LocalTime::from_hms_nano(24, 0, 0, 0).is_none());
    assert!(LocalTime::from_hms_nano(23, 60, 0, 0).is_none());
    assert!(LocalTime::from_hms_nano(23, 59, 59, 1_500_000_000).is_some());
    assert!(LocalTime::from_hms_nano(23, 59, 58, 1_500_000_000).is_none());
    assert!(LocalTime::from_hms_nano(23, 59, 59, 2_000_000_000).is_none());
}
