use timezoners::civil::{CivilDate, ClockTime, ZonedDateTime};
use timezoners::clock::{
    boundary_label_text, calc_offset_for_midday, checked_time_string_from_index, get_time_string_from_index,
    time_labels_for,
};
use timezoners::range::{checked_current_timezone_range, get_base_timezone_range, get_current_timezone_range};
use timezoners::search::zone_row_visible;

fn date(year: i32, month: u32, day: u32) -> CivilDate {
    CivilDate { year, month, day }
}

fn zoned(hour: u32, minute: u32, second: u32) -> ZonedDateTime {
    ZonedDateTime { timestamp: 0, date: date(2021, 6, 15), time: ClockTime { hour, minute, second } }
}

#[test]
fn base_range_of_a_utc_day() {
    let (start, end) = get_base_timezone_range("UTC".to_string(), date(2021, 6, 15));
    assert_eq!(start.timestamp, 1623715200);
    assert_eq!(end.timestamp, 1623715200 + 86399);
    assert_eq!(start.date, date(2021, 6, 15));
    assert_eq!(start.time, ClockTime { hour: 0, minute: 0, second: 0 });
    assert_eq!(end.time, ClockTime { hour: 23, minute: 59, second: 59 });
}

#[test]
fn base_range_of_a_berlin_summer_day() {
    let (start, end) = get_base_timezone_range("Europe/Berlin".to_string(), date(2021, 6, 15));
    // 00:00 CEST is 22:00 UTC the day before
    assert_eq!(start.timestamp, 1623708000);
    assert_eq!(end.timestamp, 1623708000 + 86399);
}

#[test]
fn tokyo_seen_from_a_utc_day() {
    let (s, e, ss, es) = get_current_timezone_range("UTC".to_string(), Some("Asia/Tokyo".to_string()), date(2021, 6, 15));
    let s = s.unwrap();
    let e = e.unwrap();
    assert_eq!(s.timestamp, 1623715200);
    assert_eq!(s.date, date(2021, 6, 15));
    assert_eq!(s.time, ClockTime { hour: 9, minute: 0, second: 0 });
    assert_eq!(e.date, date(2021, 6, 16));
    assert_eq!(e.time, ClockTime { hour: 8, minute: 59, second: 59 });
    assert_eq!(ss, Some(true));
    assert_eq!(es, Some(false));
}

#[test]
fn new_york_seen_from_a_berlin_day() {
    let (s, e, ss, es) =
        get_current_timezone_range("Europe/Berlin".to_string(), Some("America/New_York".to_string()), date(2021, 6, 15));
    let s = s.unwrap();
    let e = e.unwrap();
    assert_eq!(s.date, date(2021, 6, 14));
    assert_eq!(s.time, ClockTime { hour: 18, minute: 0, second: 0 });
    assert_eq!(e.date, date(2021, 6, 15));
    assert_eq!(e.time, ClockTime { hour: 17, minute: 59, second: 59 });
    assert_eq!(ss, Some(false));
    assert_eq!(es, Some(true));
}

#[test]
fn same_zone_keeps_the_day() {
    let (s, e, ss, es) = get_current_timezone_range("Asia/Kolkata".to_string(), Some("Asia/Kolkata".to_string()), date(2024, 2, 29));
    assert_eq!(s.unwrap().time, ClockTime { hour: 0, minute: 0, second: 0 });
    assert_eq!(e.unwrap().time, ClockTime { hour: 23, minute: 59, second: 59 });
    assert_eq!((ss, es), (Some(true), Some(true)));
}

#[test]
fn no_zone_selected_gives_nothing() {
    let r = get_current_timezone_range("UTC".to_string(), None, date(2021, 6, 15));
    assert_eq!(r, (None, None, None, None));
    let r = get_current_timezone_range("UTC".to_string(), Some(String::new()), date(2021, 6, 15));
    assert_eq!(r, (None, None, None, None));
}

#[test]
fn checked_range_refuses_unknown_zones() {
    assert_eq!(checked_current_timezone_range("Nowhere/Atlantis".to_string(), None, date(2021, 6, 15)), None);
    assert_eq!(
        checked_current_timezone_range("UTC".to_string(), Some("Nowhere/Atlantis".to_string()), date(2021, 6, 15)),
        None
    );
    assert_eq!(checked_current_timezone_range("UTC".to_string(), Some("Nowhere/Atlantis".to_string()), date(2021, 2, 30)), None);
    assert!(checked_current_timezone_range("UTC".to_string(), Some("Asia/Tokyo".to_string()), date(2021, 6, 15)).is_some());
}

#[test]
fn checked_range_refuses_a_skipped_midnight() {
    // Chile moved its clocks from 00:00 to 01:00 on 2022-09-11
    assert_eq!(checked_current_timezone_range("America/Santiago".to_string(), None, date(2022, 9, 11)), None);
    assert!(checked_current_timezone_range("America/Santiago".to_string(), None, date(2022, 9, 12)).is_some());
}

#[test]
fn a_start_on_the_next_day_is_not_today() {
    // 00:00 at UTC-12 is 02:00 the next day at UTC+14
    let (s, e, ss, es) =
        get_current_timezone_range("Etc/GMT+12".to_string(), Some("Pacific/Kiritimati".to_string()), date(2021, 6, 15));
    let s = s.unwrap();
    let e = e.unwrap();
    assert_eq!(s.date, date(2021, 6, 16));
    assert_eq!(s.time, ClockTime { hour: 2, minute: 0, second: 0 });
    assert_eq!(e.date, date(2021, 6, 17));
    assert_eq!(e.time, ClockTime { hour: 1, minute: 59, second: 59 });
    assert_eq!((ss, es), (Some(false), Some(false)));
    let labels = time_labels_for(
        &Some("Etc/GMT+12".to_string()),
        &Some("Pacific/Kiritimati".to_string()),
        date(2021, 6, 15),
    );
    assert_eq!(labels, Some(("* 02:00 am".to_string(), "* 01:59 am".to_string())));
}

#[test]
fn labels_read_back_at_step_zero() {
    for hour in 0..24 {
        for minute in [0, 7, 30, 59] {
            let same = boundary_label_text(&zoned(hour, minute, 41), true);
            assert_eq!(get_time_string_from_index(0, &same), same);
            let other = boundary_label_text(&zoned(hour, minute, 41), false);
            assert_eq!(get_time_string_from_index(0, &other), format!("<= {}", &other[2..]));
        }
    }
}

#[test]
fn boundary_labels() {
    assert_eq!(boundary_label_text(&zoned(9, 5, 0), true), "09:05 am");
    assert_eq!(boundary_label_text(&zoned(21, 5, 0), false), "* 09:05 pm");
    assert_eq!(boundary_label_text(&zoned(0, 0, 0), true), "12:00 am");
    assert_eq!(boundary_label_text(&zoned(12, 59, 59), true), "12:59 pm");
}

#[test]
fn labels_for_tokyo_on_a_utc_day() {
    let labels = time_labels_for(&Some("UTC".to_string()), &Some("Asia/Tokyo".to_string()), date(2021, 6, 15));
    assert_eq!(labels, Some(("09:00 am".to_string(), "* 08:59 am".to_string())));
}

#[test]
fn labels_for_new_york_on_a_berlin_day() {
    let labels = time_labels_for(&Some("Europe/Berlin".to_string()), &Some("America/New_York".to_string()), date(2021, 6, 15));
    assert_eq!(labels, Some(("* 06:00 pm".to_string(), "05:59 pm".to_string())));
}

#[test]
fn no_labels_without_base_or_zone() {
    assert_eq!(time_labels_for(&None, &Some("Asia/Tokyo".to_string()), date(2021, 6, 15)), None);
    assert_eq!(time_labels_for(&Some("UTC".to_string()), &None, date(2021, 6, 15)), None);
}

#[test]
fn time_string_on_the_base_day() {
    assert_eq!(get_time_string_from_index(0, "09:00 am"), "09:00 am");
    assert_eq!(get_time_string_from_index(1, "09:00 am"), "09:15 am");
    assert_eq!(get_time_string_from_index(59, "09:00 am"), "11:45 pm");
    assert_eq!(get_time_string_from_index(60, "09:00 am"), "12:00 am =>");
    assert_eq!(get_time_string_from_index(95, "09:00 am"), "08:45 am =>");
}

#[test]
fn time_string_from_the_previous_day() {
    assert_eq!(get_time_string_from_index(0, "* 06:00 pm"), "<= 06:00 pm");
    assert_eq!(get_time_string_from_index(23, "* 06:00 pm"), "<= 11:45 pm");
    assert_eq!(get_time_string_from_index(24, "* 06:00 pm"), "12:00 am");
    assert_eq!(get_time_string_from_index(95, "* 06:00 pm"), "05:45 pm");
}

#[test]
fn time_string_rounds_hours_toward_zero() {
    // whole hours of -15 minutes are 0, so an 11 pm start is not yet "next day"
    assert_eq!(get_time_string_from_index(-1, "11:00 pm"), "10:45 pm");
    assert_eq!(get_time_string_from_index(4, "11:00 pm"), "12:00 am =>");
}

#[test]
fn checked_time_string() {
    assert_eq!(checked_time_string_from_index(1, "09:00 am"), Some("09:15 am".to_string()));
    assert_eq!(checked_time_string_from_index(1, "not a time"), None);
    assert_eq!(checked_time_string_from_index(1, "*é06:00 pm"), None);
    assert_eq!(checked_time_string_from_index(i64::MAX, "09:00 am"), None);
    assert_eq!(checked_time_string_from_index(10_248_191_152_061, "09:00 am"), None);
    assert!(checked_time_string_from_index(10_248_191_152_060, "09:00 am").is_some());
}

#[test]
fn midday_offsets() {
    assert_eq!(calc_offset_for_midday(&zoned(9, 30, 0)), 150);
    assert_eq!(calc_offset_for_midday(&zoned(0, 0, 0)), 720);
    assert_eq!(calc_offset_for_midday(&zoned(12, 0, 0)), 0);
    assert_eq!(calc_offset_for_midday(&zoned(12, 0, 30)), 0);
    assert_eq!(calc_offset_for_midday(&zoned(12, 30, 0)), 1410);
    assert_eq!(calc_offset_for_midday(&zoned(18, 0, 0)), 1080);
    assert_eq!(calc_offset_for_midday(&zoned(11, 59, 30)), 0);
}

#[test]
fn midday_offset_lands_on_noon() {
    for hour in 0..24 {
        for minute in 0..60 {
            let offset = calc_offset_for_midday(&zoned(hour, minute, 0));
            assert!((0..1440).contains(&offset));
            assert_eq!((hour as i64 * 60 + minute as i64 + offset) % 1440, 720);
        }
    }
}

#[test]
fn zone_rows_follow_the_search() {
    assert!(zone_row_visible("", Some("Europe/Berlin")));
    assert!(zone_row_visible("ber", Some("Europe/Berlin")));
    assert!(zone_row_visible("BER", Some("Europe/Berlin")));
    assert!(zone_row_visible("e/b", Some("Europe/Berlin")));
    assert!(!zone_row_visible("xyz", Some("Europe/Berlin")));
    assert!(!zone_row_visible("europe/berlinx", Some("Europe/Berlin")));
    assert!(zone_row_visible("xyz", None));
}

#[test]
fn base_range_on_clock_change_days() {
    // the clocks go forward: the day is 23 hours long
    let (start, end) = get_base_timezone_range("Europe/Berlin".to_string(), date(2021, 3, 28));
    assert!(start.timestamp < end.timestamp);
    assert_eq!(end.timestamp - start.timestamp, 82799);
    // the clocks go back: the day is 25 hours long
    let (start, end) = get_base_timezone_range("Europe/Berlin".to_string(), date(2021, 10, 31));
    assert_eq!(end.timestamp - start.timestamp, 89999);
}
