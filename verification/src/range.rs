//! The span of a base zone's day, and the same span seen from another zone.
use vstd::prelude::*;

use crate::civil::{CivilDate, ClockTime, ZonedDateTime};
use crate::tzdb::{
    fields_in_zone,
    instant_in_range,
    local_timestamp,
    moment_precedes,
    zone_name_known,
    zoned_at_instant,
    zoned_at_local,
};

verus! {

/// The first second of a day: 00:00:00.
pub open spec fn day_start() -> ClockTime {
    ClockTime { hour: 0, minute: 0, second: 0 }
}

/// The last whole second of a day: 23:59:59.
pub open spec fn day_end() -> ClockTime {
    ClockTime { hour: 23, minute: 59, second: 59 }
}

/// The moments 00:00:00 and 23:59:59 of `date` on the wall clock of the zone `base`
/// (chrono makes them only as instants it can represent).
pub open spec fn base_range(base: Seq<char>, date: CivilDate) -> Option<(ZonedDateTime, ZonedDateTime)> {
    match (zoned_at_local(base, date, day_start()), zoned_at_local(base, date, day_end())) {
        (Some(start), Some(end)) => if instant_in_range(start.timestamp as int) && instant_in_range(
            end.timestamp as int,
        ) {
            Some((start, end))
        } else {
            None
        },
        _ => None,
    }
}

/// The view of an optional string.
pub open spec fn opt_view(o: Option<String>) -> Option<Seq<char>> {
    match o {
        Some(s) => Some(s@),
        None => None,
    }
}

/// A zone is selected: the name is present and not empty.
pub open spec fn zone_selected(this: Option<Seq<char>>) -> bool {
    this matches Some(name) && name.len() > 0
}

/// The base day's span, and its two ends seen from `this`, can all be computed:
/// the base zone resolves 00:00:00 and 23:59:59 of the date to one instant each,
/// and a selected zone is a name chrono-tz knows (where this fails the
/// computation panics).
pub open spec fn current_range_defined(base: Seq<char>, this: Option<Seq<char>>, date: CivilDate) -> bool {
    &&& base_range(base, date) is Some
    &&& zone_selected(this) ==> zone_name_known(this->0)
}

/// The start and end of the base day as the zone `this` shows them, and whether
/// each falls on the base date itself there (today). All four are `None` when no
/// zone is selected.
pub open spec fn current_range(base: Seq<char>, this: Option<Seq<char>>, date: CivilDate) -> (
    Option<ZonedDateTime>,
    Option<ZonedDateTime>,
    Option<bool>,
    Option<bool>,
) {
    if zone_selected(this) {
        let (start, end) = base_range(base, date)->0;
        let cur_start = zoned_at_instant(this->0, start.timestamp)->0;
        let cur_end = zoned_at_instant(this->0, end.timestamp)->0;
        (
            Some(cur_start),
            Some(cur_end),
            Some(cur_start.date == start.date),
            Some(cur_end.date == end.date),
        )
    } else {
        (None, None, None, None)
    }
}

fn zoned_or_none(zone: &str, date: &CivilDate, time: &ClockTime) -> (res: Option<ZonedDateTime>)
    ensures
        res == zoned_at_local(zone@, *date, *time),
        res matches Some(z) ==> instant_in_range(z.timestamp as int),
        res is Some ==> zone@.len() > 0,
        forall|later_date: CivilDate, later_time: ClockTime|
            #![trigger zoned_at_local(zone@, later_date, later_time)]
            res is Some && zoned_at_local(zone@, later_date, later_time) is Some && moment_precedes(
                *date,
                *time,
                later_date,
                later_time,
            ) ==> res->0.timestamp < zoned_at_local(zone@, later_date, later_time)->0.timestamp,
{
    match local_timestamp(zone, date, time) {
        Some(ts) => Some(ZonedDateTime { timestamp: ts, date: *date, time: *time }),
        None => None,
    }
}

fn checked_base_range(base_tz: &str, for_date: &CivilDate) -> (res: Option<(ZonedDateTime, ZonedDateTime)>)
    ensures
        res == base_range(base_tz@, *for_date),
        res matches Some((start, end)) ==> start.timestamp < end.timestamp && base_tz@.len() > 0,
{
    let start = zoned_or_none(base_tz, for_date, &ClockTime::new(0, 0, 0));
    let end = zoned_or_none(base_tz, for_date, &ClockTime::new(23, 59, 59));
    match (start, end) {
        (Some(s), Some(e)) => Some((s, e)),
        _ => None,
    }
}

/// The moments 00:00:00 and 23:59:59 of `for_date` in the zone named `base_tz`; the
/// first is the earlier instant.
pub fn get_base_timezone_range(base_tz: String, for_date: CivilDate) -> (range: (ZonedDateTime, ZonedDateTime))
    requires
        base_range(base_tz@, for_date) is Some,
    ensures
        Some(range) == base_range(base_tz@, for_date),
        range.0.timestamp < range.1.timestamp,
        base_tz@.len() > 0,
{
    match checked_base_range(base_tz.as_str(), &for_date) {
        Some(r) => r,
        None => vstd::pervasive::unreached(),
    }
}

fn zone_in_use(this_tz: &Option<String>) -> (name: Option<&str>)
    ensures
        zone_selected(opt_view(*this_tz)) <==> name is Some,
        name matches Some(n) ==> n@ == opt_view(*this_tz)->0,
{
    match this_tz {
        Some(t) => if t.as_str().is_empty() {
            None
        } else {
            Some(t.as_str())
        },
        None => None,
    }
}

/// Whether the range of `get_current_timezone_range` can be computed for these arguments.
pub(crate) fn current_range_available(base_tz: &str, this_tz: &Option<String>, for_date: &CivilDate) -> (ok: bool)
    ensures
        ok == current_range_defined(base_tz@, opt_view(*this_tz), *for_date),
{
    match checked_base_range(base_tz, for_date) {
        None => false,
        Some((start, end)) => match zone_in_use(this_tz) {
            None => true,
            Some(zone) => fields_in_zone(zone, start.timestamp).is_some(),
        },
    }
}

/// The start and end of the base zone's day `for_date` as the zone `this_tz` shows
/// them, and for each whether it falls on `for_date` itself there (today): `false`
/// when it lands on the day before or the day after. With no zone selected, or an
/// empty name, all four are `None`. A zone seen from itself shows the base day
/// unchanged.
pub fn get_current_timezone_range(base_tz: String, this_tz: Option<String>, for_date: CivilDate) -> (res: (
    Option<ZonedDateTime>,
    Option<ZonedDateTime>,
    Option<bool>,
    Option<bool>,
))
    requires
        current_range_defined(base_tz@, opt_view(this_tz), for_date),
    ensures
        res == current_range(base_tz@, opt_view(this_tz), for_date),
        res.0 matches Some(z) ==> z.time.wf(),
        res.1 matches Some(z) ==> z.time.wf(),
        (res.0 is Some && res.1 is Some) ==> res.0->0.timestamp < res.1->0.timestamp,
        opt_view(this_tz) == Some(base_tz@) ==> ({
            let (start, end) = base_range(base_tz@, for_date)->0;
            res == (Some(start), Some(end), Some(true), Some(true))
        }),
{
    let (base_start, base_end) = get_base_timezone_range(base_tz, for_date);
    let zone = match zone_in_use(&this_tz) {
        Some(z) => z,
        None => return (None, None, None, None),
    };
    let cur_start = match fields_in_zone(zone, base_start.timestamp) {
        Some(z) => z,
        None => vstd::pervasive::unreached(),
    };
    let cur_end = match fields_in_zone(zone, base_end.timestamp) {
        Some(z) => z,
        None => vstd::pervasive::unreached(),
    };
    proof {
        if zone@ == base_tz@ {
            assert(zoned_at_local(zone@, for_date, day_start()) == Some(base_start));
            assert(zoned_at_local(zone@, for_date, day_end()) == Some(base_end));
        }
    }
    let start_same_date = cur_start.date == base_start.date;
    let end_same_date = cur_end.date == base_end.date;
    (Some(cur_start), Some(cur_end), Some(start_same_date), Some(end_same_date))
}

/// `get_current_timezone_range` where it can be computed, `None` where it cannot
/// (an unknown zone name, or a base midnight or 23:59:59 that the zone's clock skips
/// or shows twice).
pub fn checked_current_timezone_range(base_tz: String, this_tz: Option<String>, for_date: CivilDate) -> (res: Option<
    (Option<ZonedDateTime>, Option<ZonedDateTime>, Option<bool>, Option<bool>),
>)
    ensures
        res == if current_range_defined(base_tz@, opt_view(this_tz), for_date) {
            Some(current_range(base_tz@, opt_view(this_tz), for_date))
        } else {
            None
        },
{
    if current_range_available(base_tz.as_str(), &this_tz, &for_date) {
        Some(get_current_timezone_range(base_tz, this_tz, for_date))
    } else {
        None
    }
}

/// The base range runs from local midnight to 23:59:59 of the given date, on the
/// base zone's own clock.
pub proof fn lemma_base_range_is_the_whole_day(base: Seq<char>, date: CivilDate)
    requires
        base_range(base, date) is Some,
    ensures
        ({
            let (start, end) = base_range(base, date)->0;
            &&& start.date == date && start.time == day_start()
            &&& end.date == date && end.time == day_end()
        }),
{
}

/// Seen from another zone, the start and end are the very instants that bound the
/// base day, shown on that zone's clock; the flags say whether the wall-clock date
/// there is the base date itself.
pub proof fn lemma_current_range_same_instants(base: Seq<char>, this: Option<Seq<char>>, date: CivilDate)
    requires
        current_range_defined(base, this, date),
        zone_selected(this),
    ensures
        ({
            let (start, end) = base_range(base, date)->0;
            let (cur_start, cur_end, start_same, end_same) = current_range(base, this, date);
            &&& cur_start == zoned_at_instant(this->0, start.timestamp)
            &&& cur_end == zoned_at_instant(this->0, end.timestamp)
            &&& cur_start matches Some(cs) && cs.timestamp == start.timestamp
            &&& cur_end matches Some(ce) && ce.timestamp == end.timestamp
            &&& start_same == Some(cur_start->0.date == date)
            &&& end_same == Some(cur_end->0.date == date)
        }),
{
}

/// With no zone selected (or an empty name) there is nothing to show.
pub proof fn lemma_no_zone_no_range(base: Seq<char>, this: Option<Seq<char>>, date: CivilDate)
    requires
        !zone_selected(this),
    ensures
        current_range(base, this, date) == (
            None::<ZonedDateTime>,
            None::<ZonedDateTime>,
            None::<bool>,
            None::<bool>,
        ),
{
}

} // verus!
