//! Conversions between `chrono`'s date and time types and temporal atoms.
//!
//! A date is stored as days since 2000-01-01 and a time as milliseconds since
//! midnight. The calendar arithmetic is `chrono`'s; what this library adds
//! (truncation, splitting and joining milliseconds, mapping a refusal to an
//! error) is verified here.

use vstd::prelude::*;
use chrono::{NaiveDate, NaiveTime, TimeDelta};
use crate::convert::{FromValue, ToValue};
use crate::error::{ErrorCode, RayError, Result};
use crate::scalars::is_atom_of;
use crate::types::{W32Kind, W64Kind, RAY_DATE, RAY_TIME};
use crate::value::{Datum, Scalar, Value};

verus! {

#[verifier::external_type_specification]
#[verifier::external_body]
pub struct ExNaiveDate(chrono::NaiveDate);

#[verifier::external_type_specification]
#[verifier::external_body]
pub struct ExNaiveTime(chrono::NaiveTime);

#[verifier::external_type_specification]
#[verifier::external_body]
pub struct ExTimeDelta(chrono::TimeDelta);


// ---- calls into chrono ----

/// What `NaiveDate::from_ymd_opt` gives for a year, month and day.
pub uninterp spec fn ymd_date(year: i32, month: u32, day: u32) -> Option<NaiveDate>;

/// What `TimeDelta::days` gives for a count of days.
pub uninterp spec fn days_span(days: i64) -> TimeDelta;

/// What `NaiveDate::checked_add_signed` gives for a date and a span.
pub uninterp spec fn date_after(date: NaiveDate, span: TimeDelta) -> Option<NaiveDate>;

/// What `NaiveDate::signed_duration_since` gives for a date and the date it is measured from.
pub uninterp spec fn date_span(date: NaiveDate, since: NaiveDate) -> TimeDelta;

/// What `TimeDelta::num_days` gives for a span.
pub uninterp spec fn span_whole_days(span: TimeDelta) -> i64;

/// What `Timelike::num_seconds_from_midnight` gives for a time.
pub uninterp spec fn secs_of(t: NaiveTime) -> u32;

/// What `Timelike::nanosecond` gives for a time.
pub uninterp spec fn nanos_of(t: NaiveTime) -> u32;

/// `NaiveDate::from_ymd_opt`: the date of a year, month and day; `None` for a
/// day that does not exist. Its result is named `ymd_date`; stated beside
/// that: an ordinary day of an ordinary year exists.
#[verifier::external_body]
fn date_from_ymd(year: i32, month: u32, day: u32) -> (r: Option<NaiveDate>)
    ensures
        r == ymd_date(year, month, day),
        1 <= year <= 9999 && 1 <= month <= 12 && 1 <= day <= 28 ==> r is Some,
{
    NaiveDate::from_ymd_opt(year, month, day)
}

/// `NaiveDate::signed_duration_since`: the signed span from `since` to
/// `date`, named `date_span`.
#[verifier::external_body]
fn date_minus(date: &NaiveDate, since: &NaiveDate) -> (r: TimeDelta)
    ensures
        r == date_span(*date, *since),
{
    date.signed_duration_since(*since)
}

/// `TimeDelta::num_days`: the whole days of a span, named `span_whole_days`.
#[verifier::external_body]
fn whole_days(d: &TimeDelta) -> (r: i64)
    ensures
        r == span_whole_days(*d),
{
    d.num_days()
}

/// `TimeDelta::days`: a span of whole days, named `days_span`. It panics
/// beyond `i64::MAX` milliseconds, which `requires` rules out.
#[verifier::external_body]
fn span_of_days(days: i64) -> (r: TimeDelta)
    requires
        -100_000_000_000 <= days <= 100_000_000_000,
    ensures
        r == days_span(days),
{
    TimeDelta::days(days)
}

/// `NaiveDate::checked_add_signed`: the date a span later, `None` outside
/// chrono's calendar range; the result is named `date_after`.
#[verifier::external_body]
fn date_plus(date: &NaiveDate, span: TimeDelta) -> (r: Option<NaiveDate>)
    ensures
        r == date_after(*date, span),
{
    date.checked_add_signed(span)
}

/// `Timelike::num_seconds_from_midnight` on a `NaiveTime`: the non-leap
/// seconds since midnight, named `secs_of`, below 86 400.
#[verifier::external_body]
fn seconds_of_day(t: &NaiveTime) -> (r: u32)
    ensures
        r == secs_of(*t),
        r < 86_400,
{
    chrono::Timelike::num_seconds_from_midnight(t)
}

/// `Timelike::nanosecond` on a `NaiveTime`: the nanoseconds within the
/// second, named `nanos_of`, below 2 000 000 000 (the upper half marks a
/// leap second).
#[verifier::external_body]
fn nanos_of_second(t: &NaiveTime) -> (r: u32)
    ensures
        r == nanos_of(*t),
        r < 2_000_000_000,
{
    chrono::Timelike::nanosecond(t)
}

/// `NaiveTime::from_num_seconds_from_midnight_opt`: the time `secs` seconds
/// and `nano` nanoseconds after midnight; `None` exactly when `secs` is past
/// the day, `nano` is past a leap second, or a leap second does not fall on
/// the minute's last second. The time it builds has exactly those seconds
/// and nanoseconds.
#[verifier::external_body]
fn time_from_parts(secs: u32, nano: u32) -> (r: Option<NaiveTime>)
    ensures
        r is Some <==> (secs < 86_400 && nano < 2_000_000_000 && (nano < 1_000_000_000 || secs % 60
            == 59)),
        r matches Some(t) ==> secs_of(t) == secs && nanos_of(t) == nano,
{
    NaiveTime::from_num_seconds_from_midnight_opt(secs, nano)
}

// ---- the library's rules ----

/// 2000-01-01, the epoch of dates, as chrono makes it.
pub open spec fn epoch_date() -> NaiveDate {
    ymd_date(2000, 1, 1)->Some_0
}

/// The date `d`'s day count after the epoch, as chrono computes it (`None`
/// outside chrono's calendar range).
pub open spec fn date_of_atom(d: Datum) -> Option<NaiveDate> {
    date_after(epoch_date(), days_span(d->Atom_0->W32_1 as i64))
}

/// 2000-01-01, the epoch of dates.
fn date_epoch() -> (r: NaiveDate)
    ensures
        ymd_date(2000, 1, 1) == Some(r),
{
    match date_from_ymd(2000, 1, 1) {
        Some(d) => d,
        None => vstd::pervasive::unreached(),
    }
}

/// The day field of a date atom for a span of `days` whole days: the low 32
/// bits, as a cast gives them.
pub fn date_field(days: i64) -> (r: i32)
    ensures
        r == days as i32,
{
    days as i32
}

/// Milliseconds since midnight for `secs` seconds and `nanos` nanoseconds
/// (sub-millisecond nanoseconds dropped).
pub fn millis_of_day(secs: u32, nanos: u32) -> (r: i32)
    requires
        secs < 86_400,
        nanos < 2_000_000_000,
    ensures
        r == secs * 1000 + nanos / 1_000_000,
{
    let ms: i64 = secs as i64 * 1000 + nanos as i64 / 1_000_000;
    ms as i32
}

/// Split milliseconds since midnight, as the unsigned value a cast gives, into
/// whole seconds and the nanoseconds of the remainder.
pub fn split_millis(ms: i32) -> (r: (u32, u32))
    ensures
        r.0 == (ms as u32) / 1000,
        r.1 == ((ms as u32) % 1000) * 1_000_000,
{
    let m: u32 = ms as u32;
    (m / 1000, (m % 1000) * 1_000_000)
}

/// The nanoseconds a timestamp atom stores for a span: `nanos` where the span
/// fits in `i64` nanoseconds, otherwise the limit on the span's side,
/// `i64::MIN + 1` below (`i64::MIN` is the null) and `i64::MAX` above.
pub open spec fn saturated_nanos(nanos: Option<i64>, secs: i64) -> i64 {
    match nanos {
        Some(n) => n,
        None => if secs < 0 { (i64::MIN + 1) as i64 } else { i64::MAX },
    }
}

/// The timestamp atom of a span from 2000-01-01 00:00 UTC, given as chrono
/// reports it: its nanoseconds (`None` when they overflow `i64`) and its
/// whole seconds.
pub fn timestamp_from_span(nanos: Option<i64>, secs: i64) -> (r: Value)
    ensures
        r@ == Datum::Atom(Scalar::W64(W64Kind::Timestamp, saturated_nanos(nanos, secs))),
{
    let ns = match nanos {
        Some(n) => n,
        None => if secs < 0 { i64::MIN + 1 } else { i64::MAX },
    };
    Value::timestamp_nanos(ns)
}

/// Turn chrono's answer into a result: its value, or a range error saying
/// what was out of range.
pub fn in_range<T>(r: Option<T>, what: &str) -> (out: Result<T>)
    ensures
        r matches Some(x) ==> out == Ok::<T, RayError>(x),
        r is None ==> (out matches Err(e) && e.code == ErrorCode::Range && e.message@ == what@),
{
    match r {
        Some(x) => Ok(x),
        None => Err(RayError::new(ErrorCode::Range, what)),
    }
}

/// The date atom a date converts to: chrono's whole-day span from the epoch,
/// cast to `i32`.
pub open spec fn date_atom_of(date: NaiveDate) -> Datum {
    Datum::Atom(Scalar::W32(W32Kind::Date, span_whole_days(date_span(date, epoch_date())) as i32))
}

/// Milliseconds since midnight of a time (sub-millisecond nanoseconds dropped).
pub open spec fn millis_of_time(t: NaiveTime) -> int {
    secs_of(t) * 1000 + nanos_of(t) / 1_000_000
}

/// The milliseconds of a time atom, if it is one.
pub open spec fn time_millis_of(d: Datum) -> int {
    d->Atom_0->W32_1 as int
}

impl ToValue for NaiveDate {
    open spec fn converts_to(&self, d: Datum) -> bool {
        d == date_atom_of(*self)
    }

    fn to_value(&self) -> (r: Value) {
        let span = date_minus(self, &date_epoch());
        Value::date_days(date_field(whole_days(&span)))
    }
}

impl ToValue for NaiveTime {
    open spec fn converts_to(&self, d: Datum) -> bool {
        d == Datum::Atom(Scalar::W32(W32Kind::Time, millis_of_time(*self) as i32))
    }

    fn to_value(&self) -> (r: Value) {
        let ms = millis_of_day(seconds_of_day(self), nanos_of_second(self));
        Value::time_millis(ms)
    }
}

impl FromValue for NaiveDate {
    open spec fn accepts(d: Datum) -> bool {
        is_atom_of(d, RAY_DATE)
    }

    /// Chrono refuses a day count outside its calendar range.
    open spec fn may_refuse(d: Datum) -> bool {
        date_of_atom(d) is None
    }

    open spec fn decodes_to(d: Datum, x: NaiveDate) -> bool {
        date_of_atom(d) == Some(x)
    }

    fn from_value(v: &Value) -> (r: Result<NaiveDate>)
        ensures
            r matches Err(e) ==> e.code == (if is_atom_of(v@, RAY_DATE) {
                ErrorCode::Range
            } else {
                ErrorCode::Type
            }),
    {
        let days = match v.as_date_days() {
            Ok(days) => days,
            Err(e) => {
                return Err(e);
            },
        };
        let e = date_epoch();
        in_range(date_plus(&e, span_of_days(days as i64)), "date out of range")
    }
}

impl FromValue for NaiveTime {
    /// A time atom of milliseconds within a day (a leap second excluded).
    open spec fn accepts(d: Datum) -> bool {
        is_atom_of(d, RAY_TIME) && 0 <= time_millis_of(d) < 86_400_000
    }

    open spec fn may_refuse(d: Datum) -> bool {
        false
    }

    /// The seconds and nanoseconds of the milliseconds.
    open spec fn decodes_to(d: Datum, x: NaiveTime) -> bool {
        secs_of(x) == time_millis_of(d) / 1000 && nanos_of(x) == (time_millis_of(d) % 1000) * 1_000_000
    }

    fn from_value(v: &Value) -> (r: Result<NaiveTime>) {
        let ms = match v.as_time_millis() {
            Ok(ms) => ms,
            Err(e) => {
                return Err(e);
            },
        };
        let (secs, nano) = split_millis(ms);
        proof {
            assert(0 <= ms < 86_400_000 ==> (ms as u32) == ms) by (bit_vector);
            assert(ms < 0 ==> (ms as u32) >= 0x8000_0000u32) by (bit_vector);
        }
        in_range(time_from_parts(secs, nano), "time out of range")
    }
}

/// A time of day without a leap second and without sub-millisecond
/// nanoseconds comes back from its time atom with the same seconds and
/// nanoseconds.
pub proof fn law_time_round_trip(t: NaiveTime, d: Datum)
    requires
        t.converts_to(d),
        secs_of(t) < 86_400,
        nanos_of(t) < 1_000_000_000,
        nanos_of(t) % 1_000_000 == 0,
    ensures
        <NaiveTime as FromValue>::accepts(d),
        !<NaiveTime as FromValue>::may_refuse(d),
        forall|x: NaiveTime| <NaiveTime as FromValue>::decodes_to(d, x) ==> secs_of(x) == secs_of(t)
            && nanos_of(x) == nanos_of(t),
{
    let s = secs_of(t) as int;
    let n = nanos_of(t) as int;
    let q = n / 1_000_000;
    assert(n == q * 1_000_000) by (nonlinear_arith)
        requires
            n % 1_000_000 == 0,
            q == n / 1_000_000,
    ;
    assert(0 <= q < 1000);
    let m = s * 1000 + q;
    assert(m / 1000 == s && m % 1000 == q) by (nonlinear_arith)
        requires
            m == s * 1000 + q,
            0 <= q < 1000,
            0 <= s,
    ;
    assert(0 <= m < 86_400_000);
    assert(millis_of_time(t) == m);
    assert((m as i32) == m);
}

} // verus!
