//! Conversions of chrono's dates and times.

use chrono::{DateTime, NaiveDate, NaiveTime, TimeDelta, TimeZone, Utc};
use rayforce::{
    date_field, in_range, millis_of_day, split_millis, timestamp_from_span, ErrorCode, ToValue, Value,
};

fn timestamp_epoch() -> DateTime<Utc> {
    NaiveDate::from_ymd_opt(2000, 1, 1).unwrap().and_hms_opt(0, 0, 0).unwrap().and_utc()
}

#[test]
fn chrono_roundtrips() {
    let d = NaiveDate::from_ymd_opt(2021, 6, 15).unwrap();
    assert_eq!(d.to_value().extract::<NaiveDate>().unwrap(), d);

    let t = NaiveTime::from_hms_milli_opt(13, 30, 45, 250).unwrap();
    assert_eq!(t.to_value().extract::<NaiveTime>().unwrap(), t);

    // A timestamp: chrono measures the span, the library builds the atom.
    let ts = Utc.with_ymd_and_hms(2021, 6, 15, 13, 30, 45).unwrap();
    let span = ts.signed_duration_since(timestamp_epoch());
    let v = timestamp_from_span(span.num_nanoseconds(), span.num_seconds());
    let ns = v.as_timestamp_nanos().unwrap();
    let back = timestamp_epoch().checked_add_signed(TimeDelta::nanoseconds(ns)).unwrap();
    assert_eq!(back, ts);
}

#[test]
fn out_of_range_timestamps_saturate() {
    assert_eq!(timestamp_from_span(Some(5), 0).as_timestamp_nanos().unwrap(), 5);
    assert_eq!(timestamp_from_span(None, -10).as_timestamp_nanos().unwrap(), i64::MIN + 1);
    assert_eq!(timestamp_from_span(None, 10).as_timestamp_nanos().unwrap(), i64::MAX);
    assert!(!timestamp_from_span(None, -10).is_atom_null());
}

#[test]
fn dates_count_days_from_2000() {
    let epoch = NaiveDate::from_ymd_opt(2000, 1, 1).unwrap();
    assert_eq!(epoch.to_value().as_date_days().unwrap(), 0);
    let next = NaiveDate::from_ymd_opt(2000, 1, 2).unwrap();
    assert_eq!(next.to_value().as_date_days().unwrap(), 1);
    let before = NaiveDate::from_ymd_opt(1999, 12, 31).unwrap();
    assert_eq!(before.to_value().as_date_days().unwrap(), -1);
    assert_eq!(Value::date_days(366).extract::<NaiveDate>().unwrap(), NaiveDate::from_ymd_opt(2001, 1, 1).unwrap());
}

#[test]
fn times_count_milliseconds_from_midnight() {
    let t = NaiveTime::from_hms_milli_opt(1, 0, 0, 5).unwrap();
    assert_eq!(t.to_value().as_time_millis().unwrap(), 3_600_005);
    let micro = NaiveTime::from_hms_micro_opt(0, 0, 1, 999).unwrap();
    assert_eq!(micro.to_value().as_time_millis().unwrap(), 1000);
    assert_eq!(
        Value::time_millis(0).extract::<NaiveTime>().unwrap(),
        NaiveTime::from_hms_opt(0, 0, 0).unwrap()
    );
}

#[test]
fn out_of_range_times_and_dates_are_refused() {
    let e = Value::time_millis(86_400_000).extract::<NaiveTime>().unwrap_err();
    assert_eq!(e.code, ErrorCode::Range);
    assert_eq!(e.message, "time out of range");
    assert!(Value::time_millis(-1).extract::<NaiveTime>().is_err());
    assert!(Value::time_millis(86_399_999).extract::<NaiveTime>().is_ok());
    let e = Value::date_days(i32::MAX).extract::<NaiveDate>().unwrap_err();
    assert_eq!(e.message, "date out of range");
    assert!(Value::i32(1).extract::<NaiveDate>().is_err());
    assert_eq!(Value::i32(1).extract::<NaiveTime>().unwrap_err().code, ErrorCode::Type);
}

#[test]
fn field_arithmetic() {
    assert_eq!(date_field(5), 5);
    assert_eq!(date_field(-5), -5);
    assert_eq!(date_field(1i64 << 32), 0);
    assert_eq!(date_field((1i64 << 32) + 7), 7);
    assert_eq!(millis_of_day(3661, 250_000_000), 3_661_250);
    assert_eq!(millis_of_day(86_399, 1_999_999_999), 86_400_999);
    assert_eq!(split_millis(3_661_250), (3661, 250_000_000));
    assert_eq!(split_millis(-1), (4_294_967, 295_000_000));
    assert_eq!(in_range(Some(3), "x").unwrap(), 3);
    let e = in_range::<i32>(None, "thing out of range").unwrap_err();
    assert_eq!(e.code, ErrorCode::Range);
    assert_eq!(e.message, "thing out of range");
}
