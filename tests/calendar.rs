use chrono::{DateTime, Datelike, TimeZone, Timelike, Utc};
use pl031::{Registers, Rtc, UtcTime};

fn zeroed() -> Rtc {
    Rtc::new(Registers { dr: 0, mr: 0, lr: 0, cr: 0, imsc: 0, ris: 0, mis: 0, icr: 0 })
}

fn at(y: i32, mo: u32, d: u32, h: u32, mi: u32, s: u32, nanos: u32) -> UtcTime {
    let t = Utc.with_ymd_and_hms(y, mo, d, h, mi, s).unwrap();
    UtcTime { secs: t.timestamp(), nanos }
}

#[test]
fn timestamp_scenario_reads_as_calendar_time() {
    let mut rtc = zeroed();
    rtc.set_unix_timestamp(1_700_000_000);
    assert_eq!(rtc.get_unix_timestamp(), 1_700_000_000);
    let t = rtc.get_time();
    assert_eq!(t, UtcTime { secs: 1_700_000_000, nanos: 0 });
    let dt: DateTime<Utc> = DateTime::from_timestamp(t.secs, t.nanos).unwrap();
    assert_eq!((dt.year(), dt.month(), dt.day()), (2023, 11, 14));
    assert_eq!((dt.hour(), dt.minute(), dt.second()), (22, 13, 20));
}

#[test]
fn set_time_round_trip_truncates() {
    let mut rtc = zeroed();
    let cases = [
        at(1970, 1, 1, 0, 0, 0, 1),
        at(1970, 1, 1, 0, 0, 1, 0),
        at(2000, 2, 29, 12, 34, 56, 999_999_999),
        at(2023, 11, 14, 22, 13, 20, 500_000_000),
        at(2106, 2, 7, 6, 28, 14, 999_999_999),
    ];
    for t in cases {
        assert!(rtc.set_time(t).is_ok());
        assert_eq!(rtc.get_time(), UtcTime { secs: t.secs, nanos: 0 });
    }
}

#[test]
fn set_time_at_range_ends() {
    let mut rtc = zeroed();
    assert!(rtc.set_time(at(1970, 1, 1, 0, 0, 0, 0)).is_ok());
    assert_eq!(rtc.get_unix_timestamp(), 0);
    let last = at(2106, 2, 7, 6, 28, 15, 0);
    assert_eq!(last.secs, u32::MAX as i64);
    assert!(rtc.set_time(last).is_ok());
    assert_eq!(rtc.get_unix_timestamp(), u32::MAX);
}

#[test]
fn set_time_out_of_range_fails_without_writing() {
    let mut rtc = zeroed();
    rtc.set_unix_timestamp(1234);
    let before = rtc.registers();
    for t in [
        at(1969, 12, 31, 23, 59, 59, 999_999_999),
        at(1900, 1, 1, 0, 0, 0, 0),
        at(2106, 2, 7, 6, 28, 16, 0),
        at(2200, 1, 1, 0, 0, 0, 0),
    ] {
        assert!(rtc.set_time(t).is_err());
        assert_eq!(rtc.registers(), before);
    }
}

#[test]
fn set_match_in_and_out_of_range() {
    let mut rtc = zeroed();
    assert!(rtc.set_match(UtcTime { secs: 100, nanos: 250 }).is_ok());
    assert_eq!(rtc.registers().mr, 100);
    rtc.set_unix_timestamp(100);
    assert!(rtc.matched());
    let before = rtc.registers();
    assert!(rtc.set_match(UtcTime { secs: -5, nanos: 0 }).is_err());
    assert!(rtc.set_match(UtcTime { secs: 1 << 32, nanos: 0 }).is_err());
    assert_eq!(rtc.registers(), before);
}

#[test]
fn register_timestamp_values() {
    assert_eq!(UtcTime { secs: 0, nanos: 0 }.register_timestamp().unwrap(), 0);
    assert_eq!(UtcTime { secs: 4_294_967_295, nanos: 0 }.register_timestamp().unwrap(), u32::MAX);
    assert!(UtcTime { secs: 4_294_967_296, nanos: 0 }.register_timestamp().is_err());
    assert!(UtcTime { secs: i64::MIN, nanos: 0 }.register_timestamp().is_err());
    assert_eq!(UtcTime::from_unix_timestamp(u32::MAX), UtcTime { secs: 4_294_967_295, nanos: 0 });
    assert_eq!(UtcTime { secs: -3, nanos: 1 }.timestamp(), -3);
}

#[test]
fn set_time_rejects_fraction_of_last_second() {
    let mut rtc = zeroed();
    rtc.set_unix_timestamp(77);
    let before = rtc.registers();
    for nanos in [1u32, 500_000_000, 999_999_999] {
        let t = UtcTime { secs: 4_294_967_295, nanos };
        assert!(rtc.set_time(t).is_err());
        assert_eq!(rtc.registers(), before);
        assert_eq!(rtc.get_unix_timestamp(), 77);
    }
    assert!(rtc.set_time(at(2106, 2, 7, 6, 28, 15, 500_000_000)).is_err());
    assert_eq!(rtc.registers(), before);
}

#[test]
fn set_match_rejects_fraction_of_last_second() {
    let mut rtc = zeroed();
    rtc.set_match_timestamp(55);
    let before = rtc.registers();
    assert!(rtc.set_match(UtcTime { secs: 4_294_967_295, nanos: 1 }).is_err());
    assert_eq!(rtc.registers(), before);
    assert!(rtc.set_match(UtcTime { secs: 4_294_967_295, nanos: 0 }).is_ok());
    assert_eq!(rtc.registers().mr, u32::MAX);
}

#[test]
fn register_timestamp_edges_of_last_second() {
    assert!(UtcTime { secs: 4_294_967_295, nanos: 1 }.register_timestamp().is_err());
    assert_eq!(
        UtcTime { secs: 4_294_967_294, nanos: 999_999_999 }.register_timestamp().unwrap(),
        u32::MAX - 1
    );
    assert_eq!(UtcTime { secs: 0, nanos: 1 }.register_timestamp().unwrap(), 0);
    assert!(UtcTime { secs: -1, nanos: 999_999_999 }.register_timestamp().is_err());
}
