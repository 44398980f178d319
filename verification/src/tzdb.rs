//! The calls into chrono and chrono-tz, each behind a trusted item whose
//! contract states what the outside crate's source and documentation show.
#![allow(deprecated)]

use chrono::{Datelike, TimeZone, Timelike};
use std::str::FromStr;
use vstd::prelude::*;

use crate::catalogue::is_zone_catalogue;
use crate::civil::{CivilDate, ClockTime, ZonedDateTime};

verus! {

/// Whether `chrono_tz::Tz::from_str` accepts `name` (an IANA zone name such as
/// "Europe/Paris").
pub uninterp spec fn zone_name_known(name: Seq<char>) -> bool;

/// The Unix timestamp of the wall-clock moment `year-month-day hour:minute:second`
/// in the zone named `zone`, as chrono gives it through
/// `Tz::ymd_opt(year, month, day)` (one single local date) followed by
/// `Date::and_hms_opt(hour, minute, second)`; `None` where either has no single result.
pub uninterp spec fn local_instant(
    zone: Seq<char>,
    year: int,
    month: int,
    day: int,
    hour: int,
    minute: int,
    second: int,
) -> Option<i64>;

/// Whether `chrono::DateTime::from_timestamp(timestamp, 0)` gives a date-time: the
/// instant falls on a day from `NaiveDate::MIN` (January 1, 262144 BCE) to
/// `NaiveDate::MAX` (December 31, 262142 CE), the range chrono represents.
pub open spec fn instant_in_range(timestamp: int) -> bool {
    -8_334_601_228_800 <= timestamp <= 8_210_266_876_799
}

/// The wall-clock moment `(d1, t1)` comes before `(d2, t2)`: compared by year,
/// month, day, hour, minute and second.
pub open spec fn moment_precedes(d1: CivilDate, t1: ClockTime, d2: CivilDate, t2: ClockTime) -> bool {
    ||| d1.year < d2.year
    ||| d1.year == d2.year && d1.month < d2.month
    ||| d1.year == d2.year && d1.month == d2.month && d1.day < d2.day
    ||| d1.year == d2.year && d1.month == d2.month && d1.day == d2.day && t1.seconds_of_day()
        < t2.seconds_of_day()
}

/// The wall-clock fields (year, month, day, hour, minute, second) that the
/// instant `timestamp` shows in the zone named `zone`, as chrono gives them
/// through `DateTime::with_timezone` (meaningful for a known zone and an
/// instant in range).
pub uninterp spec fn local_fields(zone: Seq<char>, timestamp: int) -> (i32, u32, u32, u32, u32, u32);

/// The (hour, minute, second) that `chrono::NaiveTime::parse_from_str(text, "%I:%M %P")`
/// gives, `None` where it reports an error.
pub uninterp spec fn parsed_twelve_hour(text: Seq<char>) -> Option<(u32, u32, u32)>;

/// What `str::to_lowercase` gives for `text`.
pub uninterp spec fn lowercase(text: Seq<char>) -> Seq<char>;

/// The zoned date-time at a wall-clock moment of a zone, as chrono resolves it.
pub open spec fn zoned_at_local(zone: Seq<char>, date: CivilDate, time: ClockTime) -> Option<ZonedDateTime> {
    if !zone_name_known(zone) {
        None
    } else {
        match local_instant(
            zone,
            date.year as int,
            date.month as int,
            date.day as int,
            time.hour as int,
            time.minute as int,
            time.second as int,
        ) {
            Some(ts) => Some(ZonedDateTime { timestamp: ts, date, time }),
            None => None,
        }
    }
}

/// The zoned date-time that an instant shows in a zone, as chrono converts it.
pub open spec fn zoned_at_instant(zone: Seq<char>, timestamp: i64) -> Option<ZonedDateTime> {
    if zone_name_known(zone) && instant_in_range(timestamp as int) {
        let (y, mo, d, h, mi, s) = local_fields(zone, timestamp as int);
        Some(
            ZonedDateTime {
                timestamp,
                date: CivilDate { year: y, month: mo, day: d },
                time: ClockTime { hour: h, minute: mi, second: s },
            },
        )
    } else {
        None
    }
}

/// Parses the zone name with `chrono_tz::Tz::from_str`, then calls
/// `TimeZone::ymd_opt` and `Date::and_hms_opt` and takes the timestamp.
/// Trusted to give exactly the named result `local_instant`, and `None` for an
/// unknown zone name (so never for the empty name, which the zone table lacks);
/// and a timestamp that `DateTime::from_timestamp` takes back (chrono documents
/// that the two round-trip, and every `DateTime` lies in the range it represents).
/// Also trusted: in one zone, a later wall-clock moment that resolves to a single
/// instant resolves to a later instant. chrono-tz takes the offset of the one span
/// whose local span holds the moment, and the local spans are the UTC spans, in
/// order, each moved by its own offset. What the timestamp is for given values is
/// left unsaid: it rests on the tz database.
#[verifier::external_body]
pub(crate) fn local_timestamp(zone: &str, date: &CivilDate, time: &ClockTime) -> (ts: Option<i64>)
    ensures
        ts == (if zone_name_known(zone@) {
            local_instant(
                zone@,
                date.year as int,
                date.month as int,
                date.day as int,
                time.hour as int,
                time.minute as int,
                time.second as int,
            )
        } else {
            None
        }),
        ts matches Some(t) ==> instant_in_range(t as int),
        ts is Some ==> zone@.len() > 0,
        forall|later_date: CivilDate, later_time: ClockTime|
            #![trigger zoned_at_local(zone@, later_date, later_time)]
            ts is Some && zoned_at_local(zone@, later_date, later_time) is Some && moment_precedes(
                *date,
                *time,
                later_date,
                later_time,
            ) ==> ts->0 < zoned_at_local(zone@, later_date, later_time)->0.timestamp,
{
    let tz = match chrono_tz::Tz::from_str(zone) {
        Ok(tz) => tz,
        Err(_) => return None,
    };
    match tz.ymd_opt(date.year, date.month, date.day) {
        chrono::LocalResult::Single(day) => match day.and_hms_opt(time.hour, time.minute, time.second) {
            Some(dt) => Some(dt.timestamp()),
            None => None,
        },
        chrono::LocalResult::Ambiguous(_, _) => None,
        chrono::LocalResult::None => None,
    }
}

/// Parses the zone name with `chrono_tz::Tz::from_str`, makes the UTC date-time of
/// `timestamp` with `DateTime::from_timestamp`, moves it to the zone with
/// `DateTime::with_timezone` and reads its fields. Trusted to give `None` exactly
/// for an unknown zone (the empty name among them) or an instant chrono cannot
/// represent; otherwise the named
/// result `local_fields`, the same instant back (chrono documents that
/// `with_timezone` keeps the instant), and fields in their documented ranges
/// (month 1 to 12, day 1 to 31, hour 0 to 23, minute and second 0 to 59).
/// Also trusted: an instant that `local_timestamp` made from a wall-clock moment of
/// the same zone shows that very moment again. chrono-tz resolves a single local
/// time by the offset span that holds it, and the span of local times is the span
/// of UTC instants moved by that offset, so `with_timezone` finds the same offset.
#[verifier::external_body]
pub(crate) fn fields_in_zone(zone: &str, timestamp: i64) -> (res: Option<ZonedDateTime>)
    ensures
        res is Some <==> (zone_name_known(zone@) && instant_in_range(timestamp as int)),
        res is Some ==> zone@.len() > 0,
        res matches Some(z) ==> local_fields(zone@, timestamp as int) == (
            z.date.year,
            z.date.month,
            z.date.day,
            z.time.hour,
            z.time.minute,
            z.time.second,
        ),
        res matches Some(z) ==> z.timestamp == timestamp,
        res matches Some(z) ==> z.time.wf() && 1 <= z.date.month <= 12 && 1 <= z.date.day <= 31,
        forall|date: CivilDate, time: ClockTime|
            #![trigger zoned_at_local(zone@, date, time)]
            zoned_at_local(zone@, date, time) == Some(ZonedDateTime { timestamp, date, time }) ==> res == Some(
                ZonedDateTime { timestamp, date, time },
            ),
{
    let tz = match chrono_tz::Tz::from_str(zone) {
        Ok(tz) => tz,
        Err(_) => return None,
    };
    let dt = match chrono::DateTime::from_timestamp(timestamp, 0) {
        Some(utc) => utc.with_timezone(&tz),
        None => return None,
    };
    let date = CivilDate { year: dt.year(), month: dt.month(), day: dt.day() };
    let time = ClockTime { hour: dt.hour(), minute: dt.minute(), second: dt.second() };
    Some(ZonedDateTime { timestamp: dt.timestamp(), date, time })
}

/// The two decimal digits of `n` (for `0 <= n < 100`).
pub open spec fn two_digits(n: int) -> Seq<char> {
    let digits = seq!['0', '1', '2', '3', '4', '5', '6', '7', '8', '9'];
    seq![digits[n / 10], digits[n % 10]]
}

/// The hour as a 12-hour clock shows it: 12, then 1 to 11.
pub open spec fn twelve_hour_dial(hour: int) -> int {
    if hour % 12 == 0 {
        12
    } else {
        hour % 12
    }
}

/// `t` written in chrono's format "%I:%M %P": the 12-hour clock hour and the minute,
/// each in two digits, then "am" or "pm", such as "09:05 pm".
pub open spec fn twelve_hour_text(t: ClockTime) -> Seq<char> {
    two_digits(twelve_hour_dial(t.hour as int)) + seq![':'] + two_digits(t.minute as int) + seq![' ']
        + if t.hour < 12 {
        seq!['a', 'm']
    } else {
        seq!['p', 'm']
    }
}

/// Calls `NaiveTime::format` with "%I:%M %P". Trusted to write what chrono's
/// strftime table documents: `%I` the hour on a 12-hour clock (01 to 12) in two
/// digits, `%M` the minute in two digits, `%P` "am" or "pm". Also trusted: chrono's
/// parser reads that text back with the same format as the same hour and minute
/// (its `%I` takes 1 to 12 and counts 12 as 0, `%P` sets the half of the day, and
/// missing seconds are 0).
#[verifier::external_body]
pub(crate) fn format_twelve_hour(t: &ClockTime) -> (text: String)
    requires
        t.wf(),
    ensures
        text@ == twelve_hour_text(*t),
        parsed_twelve_hour(text@) == Some((t.hour, t.minute, 0u32)),
{
    let naive = chrono::NaiveTime::from_hms_opt(t.hour, t.minute, t.second).expect("valid time of day");
    naive.format("%I:%M %P").to_string()
}

/// Calls `NaiveTime::parse_from_str(text, "%I:%M %P")`. Trusted to give the named
/// result `parsed_twelve_hour`, with fields in the ranges chrono documents for a
/// `NaiveTime`. Which texts it accepts is left unsaid: that is chrono's parser.
#[verifier::external_body]
pub(crate) fn parse_twelve_hour(text: &str) -> (res: Option<ClockTime>)
    ensures
        match res {
            Some(t) => parsed_twelve_hour(text@) == Some((t.hour, t.minute, t.second)) && t.wf(),
            None => parsed_twelve_hour(text@) is None,
        },
{
    match chrono::NaiveTime::parse_from_str(text, "%I:%M %P") {
        Ok(t) => Some(ClockTime { hour: t.hour(), minute: t.minute(), second: t.second() }),
        Err(_) => None,
    }
}

/// The number of seconds a `TimeDelta` can hold either way: `i64::MAX / 1000`.
pub open spec fn delta_seconds_bound() -> int {
    9_223_372_036_854_775
}

/// `TimeDelta::minutes(minutes)` does not panic.
pub open spec fn minutes_fit_delta(minutes: int) -> bool {
    -delta_seconds_bound() <= minutes * 60 <= delta_seconds_bound()
}

/// Rust's integer division, which rounds toward zero.
pub open spec fn div_toward_zero(a: int, b: int) -> int {
    if a >= 0 {
        a / b
    } else {
        -((-a) / b)
    }
}

/// Adds `TimeDelta::minutes(minutes)` to a `NaiveTime`. Trusted to wrap around the
/// day as chrono documents ("This wraps around and never overflows or underflows.
/// In particular the addition ignores integral number of days.").
#[verifier::external_body]
pub(crate) fn add_minutes(t: &ClockTime, minutes: i64) -> (res: ClockTime)
    requires
        t.wf(),
        minutes_fit_delta(minutes as int),
    ensures
        res.wf(),
        res.seconds_of_day() == (t.seconds_of_day() + 60 * minutes) % 86400,
{
    let naive = chrono::NaiveTime::from_hms_opt(t.hour, t.minute, t.second).expect("valid time of day");
    let sum = naive + chrono::TimeDelta::minutes(minutes);
    ClockTime { hour: sum.hour(), minute: sum.minute(), second: sum.second() }
}

/// Calls `TimeDelta::minutes(minutes).num_hours()`. Trusted to count whole hours,
/// rounding toward zero (the source divides the seconds by 3600).
#[verifier::external_body]
pub(crate) fn whole_hours(minutes: i64) -> (hours: i64)
    requires
        minutes_fit_delta(minutes as int),
    ensures
        hours == div_toward_zero(minutes * 60, 3600),
{
    chrono::TimeDelta::minutes(minutes).num_hours()
}

/// Calls `(to - from).num_minutes()` on two `NaiveTime`s. Trusted to count the whole
/// minutes from `from` to `to`, rounding toward zero.
#[verifier::external_body]
pub(crate) fn minutes_between(from: &ClockTime, to: &ClockTime) -> (minutes: i64)
    requires
        from.wf(),
        to.wf(),
    ensures
        minutes == div_toward_zero(to.seconds_of_day() - from.seconds_of_day(), 60),
{
    let a = chrono::NaiveTime::from_hms_opt(from.hour, from.minute, from.second).expect("valid time of day");
    let b = chrono::NaiveTime::from_hms_opt(to.hour, to.minute, to.second).expect("valid time of day");
    (b - a).num_minutes()
}

/// Calls `str::to_lowercase`; trusted to give the named result `lowercase`.
#[verifier::external_body]
pub(crate) fn to_lowercase(text: &str) -> (lower: String)
    ensures
        lower@ == lowercase(text@),
{
    text.to_lowercase()
}

/// Collects `Tz::name` of every entry of `chrono_tz::TZ_VARIANTS`. Trusted to give
/// the zone catalogue: the generated source lists in `TZ_VARIANTS` every zone that
/// `Tz::from_str` accepts (its map holds exactly the 597 names `Tz::name` gives),
/// each once, sorted by the bytes of the names, which are all ASCII.
#[verifier::external_body]
pub(crate) fn all_zone_names() -> (names: Vec<String>)
    ensures
        is_zone_catalogue(names@.map_values(|n: String| n@)),
{
    let mut names = Vec::new();
    for tz in chrono_tz::TZ_VARIANTS.iter() {
        names.push(tz.name().to_string());
    }
    names
}

} // verus!
