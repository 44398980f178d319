//! The clock texts of the selector: the labels at both ends of the slider, the
//! time picked on the slider, and where midday falls on it.
use vstd::prelude::*;
use vstd::string::StrSliceExecFns;
use vstd::string::StringExecFns;
use vstd::utf8::{
    decode_utf8,
    encode_utf8,
    encode_utf8_decode_utf8,
    encode_utf8_valid_utf8,
    is_ascii_chars,
    is_ascii_chars_encode_utf8,
    is_char_boundary,
    is_char_boundary_iff_is_leading_byte,
};

use crate::civil::{clock_of_seconds, lemma_clock_of_seconds, lemma_seconds_name_a_time, CivilDate, ClockTime, ZonedDateTime};
use crate::range::{
    base_range,
    current_range,
    current_range_defined,
    day_end,
    day_start,
    get_current_timezone_range,
    lemma_base_range_is_the_whole_day,
    lemma_current_range_same_instants,
    opt_view,
    zone_selected,
};
use crate::tzdb::{
    add_minutes,
    zoned_at_instant,
    div_toward_zero,
    format_twelve_hour,
    minutes_between,
    minutes_fit_delta,
    parse_twelve_hour,
    parsed_twelve_hour,
    twelve_hour_dial,
    twelve_hour_text,
    two_digits,
    whole_hours,
};

verus! {

/// The label of an end of the slider: the time in "%I:%M %P", with "* " in front
/// when it falls on another date than the base date.
pub open spec fn boundary_label(t: ClockTime, same_date: bool) -> Seq<char> {
    if same_date {
        twelve_hour_text(t)
    } else {
        seq!['*', ' '] + twelve_hour_text(t)
    }
}

proof fn lemma_decimal_digit(k: int)
    requires
        0 <= k < 10,
    ensures
        '0' <= seq!['0', '1', '2', '3', '4', '5', '6', '7', '8', '9'][k] <= '9',
{
    let d = seq!['0', '1', '2', '3', '4', '5', '6', '7', '8', '9'];
    if k == 0 {
        assert(d[0] == '0');
    } else if k == 1 {
        assert(d[1] == '1');
    } else if k == 2 {
        assert(d[2] == '2');
    } else if k == 3 {
        assert(d[3] == '3');
    } else if k == 4 {
        assert(d[4] == '4');
    } else if k == 5 {
        assert(d[5] == '5');
    } else if k == 6 {
        assert(d[6] == '6');
    } else if k == 7 {
        assert(d[7] == '7');
    } else if k == 8 {
        assert(d[8] == '8');
    } else {
        assert(d[9] == '9');
    }
}

/// Only digits, ':', ' ', 'a', 'p' and 'm' make up a 12-hour clock text.
proof fn lemma_twelve_hour_text_chars(t: ClockTime)
    requires
        t.wf(),
    ensures
        twelve_hour_text(t).len() == 8,
        '0' <= twelve_hour_text(t)[0] <= '9',
        forall|i: int|
            0 <= i < 8 ==> {
                let c = #[trigger] twelve_hour_text(t)[i];
                ||| '0' <= c <= '9'
                ||| c == ':'
                ||| c == ' '
                ||| c == 'a'
                ||| c == 'p'
                ||| c == 'm'
            },
{
    let h = twelve_hour_dial(t.hour as int);
    let m = t.minute as int;
    lemma_decimal_digit(h / 10);
    lemma_decimal_digit(h % 10);
    lemma_decimal_digit(m / 10);
    lemma_decimal_digit(m % 10);
    let x = twelve_hour_text(t);
    assert(x =~= seq![two_digits(h)[0], two_digits(h)[1], ':', two_digits(m)[0], two_digits(m)[1], ' ', x[6], 'm']);
}

/// A label written for a time reads back as that time: its clock part parses to the
/// hour and minute shown, it can be cut where `get_time_string_from_index` cuts it,
/// and at step 0 the picked time is the label itself, with "<= " in place of "* "
/// for a label of another day.
proof fn lemma_label_reads_back(t: ClockTime, same_date: bool)
    requires
        t.wf(),
        parsed_twelve_hour(twelve_hour_text(t)) == Some((t.hour, t.minute, 0u32)),
    ensures
        parsed_twelve_hour(clock_part(boundary_label(t, same_date))) == Some((t.hour, t.minute, 0u32)),
        label_reads_back(boundary_label(t, same_date)),
        time_string(0, boundary_label(t, same_date)) == if same_date {
            twelve_hour_text(t)
        } else {
            seq!['<', '=', ' '] + twelve_hour_text(t)
        },
{
    let c = twelve_hour_text(t);
    let label = boundary_label(t, same_date);
    lemma_twelve_hour_text_chars(t);
    if same_date {
        assert(!c.contains('*'));
        assert(clock_part(label) == c);
    } else {
        assert(label[0] == '*');
        assert(label.contains('*'));
        assert(is_ascii_chars(c));
        assert(is_ascii_chars(label)) by {
            assert forall|i: int| 0 <= i < label.len() implies '\0' <= #[trigger] label[i] <= '\u{7f}' by {
                if i >= 2 {
                    assert(label[i] == c[i - 2]);
                }
            }
        }
        is_ascii_chars_encode_utf8(label);
        is_ascii_chars_encode_utf8(c);
        encode_utf8_valid_utf8(label);
        let bytes = encode_utf8(label);
        assert(bytes[2] == label[2] as u8);
        assert(label[2] == c[0]);
        is_char_boundary_iff_is_leading_byte(bytes, 2);
        assert(is_char_boundary(bytes, 2));
        assert(bytes.subrange(2, bytes.len() as int) =~= encode_utf8(c)) by {
            assert forall|i: int| 0 <= i < c.len() implies #[trigger] bytes.subrange(2, bytes.len() as int)[i]
                == encode_utf8(c)[i] by {
                assert(bytes[i + 2] == label[i + 2] as u8);
                assert(label[i + 2] == c[i]);
            }
        }
        encode_utf8_decode_utf8(c);
        assert(clock_part(label) == c);
    }
    let start = ClockTime { hour: t.hour, minute: t.minute, second: 0 };
    lemma_clock_of_seconds(start);
    assert((start.seconds_of_day() + 60 * 0) % 86400 == start.seconds_of_day());
    assert(twelve_hour_text(start) == c);
}

/// The text of one end of the slider. It reads back as the time it shows (see
/// `get_time_string_from_index`).
pub fn boundary_label_text(t: &ZonedDateTime, same_date: bool) -> (text: String)
    requires
        t.time.wf(),
    ensures
        text@ == boundary_label(t.time, same_date),
        parsed_twelve_hour(clock_part(text@)) == Some((t.time.hour, t.time.minute, 0u32)),
        label_reads_back(text@),
        time_string(0, text@) == if same_date {
            twelve_hour_text(t.time)
        } else {
            seq!['<', '=', ' '] + twelve_hour_text(t.time)
        },
{
    let clock = format_twelve_hour(&t.time);
    proof {
        lemma_label_reads_back(t.time, same_date);
    }
    if same_date {
        clock
    } else {
        let mut text = "* ".to_owned();
        proof {
            reveal_strlit("* ");
        }
        text.append(clock.as_str());
        text
    }
}

/// The labels of both ends of the slider can be computed (where they cannot, the
/// computation panics).
pub open spec fn labels_defined(base: Option<Seq<char>>, this: Option<Seq<char>>, date: CivilDate) -> bool {
    base matches Some(b) ==> current_range_defined(b, this, date)
}

/// The (start, end) labels of the slider, `None` when there is no base zone or no
/// zone is selected (the labels then stay as they are).
pub open spec fn time_labels(base: Option<Seq<char>>, this: Option<Seq<char>>, date: CivilDate) -> Option<
    (Seq<char>, Seq<char>),
> {
    match base {
        None => None,
        Some(b) => {
            let (start, end, start_same, end_same) = current_range(b, this, date);
            if start is Some && end is Some {
                Some(
                    (
                        boundary_label(start->0.time, start_same->0),
                        boundary_label(end->0.time, end_same->0),
                    ),
                )
            } else {
                None
            }
        },
    }
}

/// Midnight on a 12-hour clock: "12:00 am".
pub proof fn lemma_midnight_text()
    ensures
        twelve_hour_text(day_start()) == seq!['1', '2', ':', '0', '0', ' ', 'a', 'm'],
{
    let d = seq!['0', '1', '2', '3', '4', '5', '6', '7', '8', '9'];
    assert(d[0] == '0' && d[1] == '1' && d[2] == '2');
    assert(two_digits(12) =~= seq!['1', '2']);
    assert(two_digits(0) =~= seq!['0', '0']);
    assert(twelve_hour_text(day_start()) =~= seq!['1', '2', ':', '0', '0', ' ', 'a', 'm']);
}

/// The last minute of the day on a 12-hour clock: "11:59 pm".
pub proof fn lemma_last_minute_text()
    ensures
        twelve_hour_text(day_end()) == seq!['1', '1', ':', '5', '9', ' ', 'p', 'm'],
{
    let d = seq!['0', '1', '2', '3', '4', '5', '6', '7', '8', '9'];
    assert(d[1] == '1' && d[5] == '5' && d[9] == '9');
    assert(two_digits(11) =~= seq!['1', '1']);
    assert(two_digits(59) =~= seq!['5', '9']);
    assert(twelve_hour_text(day_end()) =~= seq!['1', '1', ':', '5', '9', ' ', 'p', 'm']);
}

/// There are labels exactly when there is a base zone and a zone is selected.
pub proof fn lemma_labels_need_base_and_zone(base: Option<Seq<char>>, this: Option<Seq<char>>, date: CivilDate)
    ensures
        time_labels(base, this, date) is Some <==> (base is Some && zone_selected(this)),
{
}

/// The labels mark the two ends of the base day as the selected zone's clock shows
/// them: the instants of 00:00:00 and 23:59:59 on the base zone's clock, each with
/// "* " where the selected zone is on another date than the base date there. This
/// holds for every selected zone, the base zone itself among them.
pub proof fn lemma_labels_show_the_base_day_ends(base: Seq<char>, this: Option<Seq<char>>, date: CivilDate)
    requires
        current_range_defined(base, this, date),
        zone_selected(this),
    ensures
        ({
            let (start, end) = base_range(base, date)->0;
            let shown_start = zoned_at_instant(this->0, start.timestamp)->0;
            let shown_end = zoned_at_instant(this->0, end.timestamp)->0;
            time_labels(Some(base), this, date) == Some(
                (
                    boundary_label(shown_start.time, shown_start.date == date),
                    boundary_label(shown_end.time, shown_end.date == date),
                ),
            )
        }),
{
    lemma_current_range_same_instants(base, this, date);
}

/// A copy of an optional zone name.
pub(crate) fn copy_zone(zone: &Option<String>) -> (copy: Option<String>)
    ensures
        opt_view(copy) == opt_view(*zone),
{
    match zone {
        Some(z) => Some(z.clone()),
        None => None,
    }
}

/// The texts of the labels at the start and end of the slider for the base day
/// `for_date` of `base_timezone`, seen from `this_timezone`.
pub fn time_labels_for(base_timezone: &Option<String>, this_timezone: &Option<String>, for_date: CivilDate) -> (labels:
    Option<(String, String)>)
    requires
        labels_defined(opt_view(*base_timezone), opt_view(*this_timezone), for_date),
    ensures
        match labels {
            Some((s, e)) => time_labels(opt_view(*base_timezone), opt_view(*this_timezone), for_date)
                == Some((s@, e@)),
            None => time_labels(opt_view(*base_timezone), opt_view(*this_timezone), for_date) is None,
        },
        labels matches Some((s, e)) ==> label_reads_back(s@) && label_reads_back(e@),
        base_timezone is Some && opt_view(*this_timezone) == opt_view(*base_timezone) ==> (labels matches Some(
            (s, e),
        ) && s@ == seq!['1', '2', ':', '0', '0', ' ', 'a', 'm'] && e@ == seq!['1', '1', ':', '5', '9', ' ', 'p', 'm']),
{
    let base = match base_timezone {
        Some(b) => b.clone(),
        None => return None,
    };
    let ghost base_view = base@;
    let (start, end, start_same, end_same) = get_current_timezone_range(base, copy_zone(this_timezone), for_date);
    proof {
        if opt_view(*this_timezone) == Some(base_view) {
            lemma_base_range_is_the_whole_day(base_view, for_date);
            lemma_midnight_text();
            lemma_last_minute_text();
        }
    }
    match (start, end, start_same, end_same) {
        (Some(s), Some(e), Some(ss), Some(es)) => Some((boundary_label_text(&s, ss), boundary_label_text(&e, es))),
        _ => None,
    }
}

/// The slider's start label marks the previous day.
pub open spec fn marks_other_day(text: Seq<char>) -> bool {
    text.contains('*')
}

/// The clock part of a start label: what follows its first two bytes ("* ") when
/// the label marks another day, the whole label otherwise.
pub open spec fn clock_part(text: Seq<char>) -> Seq<char> {
    if marks_other_day(text) {
        decode_utf8(encode_utf8(text).subrange(2, encode_utf8(text).len() as int))
    } else {
        text
    }
}

/// `get_time_string_from_index` does not panic: the label can be cut after its
/// second byte where needed, its clock part parses, and the offset in minutes fits
/// a `TimeDelta`.
pub open spec fn time_string_defined(value: i64, start_text: Seq<char>) -> bool {
    &&& marks_other_day(start_text) ==> is_char_boundary(encode_utf8(start_text), 2)
    &&& parsed_twelve_hour(clock_part(start_text)) is Some
    &&& minutes_fit_delta(value * 15)
}

/// `get_time_string_from_index` can read the label `text` at every slider step
/// whose offset fits a `TimeDelta`.
pub open spec fn label_reads_back(text: Seq<char>) -> bool {
    forall|value: i64| minutes_fit_delta(value * 15) ==> #[trigger] time_string_defined(value, text)
}

/// The time `value` quarter hours after the start label's time, in "%I:%M %P";
/// with "<= " in front while a start on the previous day has not reached midnight
/// yet, and " =>" behind once a start on the base day has reached the next midnight
/// (both judged on whole hours).
pub open spec fn time_string(value: i64, start_text: Seq<char>) -> Seq<char> {
    let (h, m, s) = parsed_twelve_hour(clock_part(start_text))->0;
    let start = ClockTime { hour: h, minute: m, second: s };
    let minutes = value * 15;
    let shown = clock_of_seconds((start.seconds_of_day() + 60 * minutes) % 86400);
    let day_check = (h - 24) + div_toward_zero(minutes * 60, 3600);
    let other_day = marks_other_day(start_text);
    if other_day && day_check < 0 {
        seq!['<', '=', ' '] + twelve_hour_text(shown)
    } else if !other_day && day_check >= 0 {
        twelve_hour_text(shown) + seq![' ', '=', '>']
    } else {
        twelve_hour_text(shown)
    }
}

/// The clock that the start label shows, as its clock part parses.
pub open spec fn label_start(start_text: Seq<char>) -> ClockTime {
    let (h, m, s) = parsed_twelve_hour(clock_part(start_text))->0;
    ClockTime { hour: h, minute: m, second: s }
}

/// The time picked on the slider is the start label's time moved on by `value`
/// quarter hours, on a clock that goes round once a day: the text shows a time of
/// day whose distance from the start is `15 * value` minutes, give or take whole
/// days; a "<= " in front comes only for a start label of the previous day, and a
/// " =>" behind only for one of the base day.
pub proof fn lemma_time_string_shows_start_plus_quarters(value: i64, start_text: Seq<char>)
    requires
        time_string_defined(value, start_text),
    ensures
        exists|shown: ClockTime|
            {
                &&& shown.wf()
                &&& (shown.seconds_of_day() - label_start(start_text).seconds_of_day() - 900 * value) % 86400
                    == 0
                &&& {
                    ||| time_string(value, start_text) == twelve_hour_text(shown)
                    ||| time_string(value, start_text) == seq!['<', '=', ' '] + twelve_hour_text(shown)
                        && marks_other_day(start_text)
                    ||| time_string(value, start_text) == twelve_hour_text(shown) + seq![' ', '=', '>']
                        && !marks_other_day(start_text)
                }
            },
{
    let start = label_start(start_text);
    let x = start.seconds_of_day() + 60 * (value * 15);
    let r = x % 86400;
    let shown = clock_of_seconds(r);
    lemma_seconds_name_a_time(r);
    assert(60 * (value * 15) == 900 * value);
    assert((r - x) % 86400 == 0) by (nonlinear_arith)
        requires
            r == x % 86400,
    ;
    assert(shown.seconds_of_day() - start.seconds_of_day() - 900 * value == r - x);
}

/// The text ends in " =>": the picked time lies past the end of the base day.
pub open spec fn marked_next_day(text: Seq<char>) -> bool {
    &&& text.len() >= 3
    &&& text.subrange(text.len() - 3, text.len() as int) == seq![' ', '=', '>']
}

/// The text begins with "<= ": the picked time lies before the base day begins.
pub open spec fn marked_previous_day(text: Seq<char>) -> bool {
    &&& text.len() >= 3
    &&& text.subrange(0, 3) == seq!['<', '=', ' ']
}

/// Whole hours, rounded toward zero, grow with the seconds they are taken of.
proof fn lemma_whole_hours_grow(a: int, b: int)
    requires
        a <= b,
    ensures
        div_toward_zero(a, 3600) <= div_toward_zero(b, 3600),
{
    if a >= 0 {
        assert(a / 3600 <= b / 3600) by (nonlinear_arith)
            requires
                0 <= a <= b,
        ;
    } else if b >= 0 {
        assert((-a) / 3600 >= 0 && b / 3600 >= 0) by (nonlinear_arith)
            requires
                a < 0 <= b,
        ;
    } else {
        assert((-b) / 3600 <= (-a) / 3600) by (nonlinear_arith)
            requires
                0 < -b <= -a,
        ;
    }
}

/// Which mark the picked time carries: "<= " for a start label of the previous
/// day while the whole hours moved on leave the start hour short of 24, " =>" for
/// one of the base day once they bring it to 24 or more.
proof fn lemma_time_string_marks(value: i64, start_text: Seq<char>)
    requires
        time_string_defined(value, start_text),
    ensures
        marked_previous_day(time_string(value, start_text)) <==> (marks_other_day(start_text)
            && label_start(start_text).hour + div_toward_zero(900 * value, 3600) < 24),
        marked_next_day(time_string(value, start_text)) <==> (!marks_other_day(start_text)
            && label_start(start_text).hour + div_toward_zero(900 * value, 3600) >= 24),
{
    let start = label_start(start_text);
    let x = start.seconds_of_day() + 60 * (value * 15);
    let r = x % 86400;
    let shown = clock_of_seconds(r);
    lemma_seconds_name_a_time(r);
    lemma_twelve_hour_text_chars(shown);
    let c = twelve_hour_text(shown);
    assert(c[7] == 'm');
    assert(value * 15 * 60 == 900 * value);
    let t = time_string(value, start_text);
    let pre = seq!['<', '=', ' '] + c;
    let post = c + seq![' ', '=', '>'];
    assert(pre.subrange(0, 3) =~= seq!['<', '=', ' ']);
    assert(post.subrange(8, 11) =~= seq![' ', '=', '>']);
    assert(pre.subrange(8, 11) =~= c.subrange(5, 8));
    assert(post.subrange(0, 3) =~= c.subrange(0, 3));
    assert(c.subrange(5, 8)[2] == 'm');
    assert(c.subrange(0, 3)[0] == c[0]);
}

/// Once the picked time from a start label of the base day is marked as past the
/// end of that day, every later slider step is marked so too.
pub proof fn lemma_next_day_mark_persists(start_text: Seq<char>, earlier: i64, later: i64)
    requires
        time_string_defined(earlier, start_text),
        time_string_defined(later, start_text),
        earlier <= later,
        marked_next_day(time_string(earlier, start_text)),
    ensures
        marked_next_day(time_string(later, start_text)),
{
    lemma_time_string_marks(earlier, start_text);
    lemma_time_string_marks(later, start_text);
    lemma_whole_hours_grow(900 * earlier, 900 * later);
}

/// Where the picked time from a start label of the previous day is marked as
/// before the base day, every earlier slider step is marked so too.
pub proof fn lemma_previous_day_mark_persists(start_text: Seq<char>, earlier: i64, later: i64)
    requires
        time_string_defined(earlier, start_text),
        time_string_defined(later, start_text),
        earlier <= later,
        marked_previous_day(time_string(later, start_text)),
    ensures
        marked_previous_day(time_string(earlier, start_text)),
{
    lemma_time_string_marks(earlier, start_text);
    lemma_time_string_marks(later, start_text);
    lemma_whole_hours_grow(900 * earlier, 900 * later);
}

/// Only a start label of the previous day gives "<= ", only one of the base day
/// gives " =>"; at the start of the slider (step 0), a start label of the base day
/// gives no mark and one of the previous day gives "<= ".
pub proof fn lemma_marks_follow_the_label(value: i64, start_text: Seq<char>)
    requires
        time_string_defined(value, start_text),
    ensures
        marked_previous_day(time_string(value, start_text)) ==> marks_other_day(start_text),
        marked_next_day(time_string(value, start_text)) ==> !marks_other_day(start_text),
        value == 0 && label_start(start_text).hour < 24 ==> (marked_previous_day(time_string(value, start_text))
            <==> marks_other_day(start_text)) && !marked_next_day(time_string(value, start_text)),
{
    lemma_time_string_marks(value, start_text);
}

fn has_char(text: &str, c: char) -> (found: bool)
    ensures
        found == text@.contains(c),
{
    let n = text.unicode_len();
    let mut i: usize = 0;
    while i < n
        invariant
            n == text@.len(),
            i <= n,
            forall|j: int| 0 <= j < i ==> text@[j] != c,
        decreases n - i,
    {
        if text.get_char(i) == c {
            return true;
        }
        i = i + 1;
    }
    false
}

/// The text shown for the time picked on the slider: `value` steps of a quarter
/// hour after the time in the start label `start_time`.
pub fn get_time_string_from_index(value: i64, start_time: &str) -> (text: String)
    requires
        time_string_defined(value, start_time@),
    ensures
        text@ == time_string(value, start_time@),
{
    let prev_day = has_char(start_time, '*');
    let parsed = if prev_day {
        let (_, rest) = start_time.split_at(2);
        proof {
            encode_utf8_decode_utf8(rest@);
            assert(rest@ == clock_part(start_time@));
        }
        parse_twelve_hour(rest)
    } else {
        parse_twelve_hour(start_time)
    };
    let starting_time = match parsed {
        Some(t) => t,
        None => vstd::pervasive::unreached(),
    };
    let minutes = value * 15;
    let calc_time = add_minutes(&starting_time, minutes);
    let hours = whole_hours(minutes);
    let day_check = (starting_time.hour as i64 - 24) + hours;
    let clock = format_twelve_hour(&calc_time);
    proof {
        lemma_clock_of_seconds(calc_time);
    }
    if prev_day && day_check < 0 {
        let mut text = "<= ".to_owned();
        proof {
            reveal_strlit("<= ");
        }
        text.append(clock.as_str());
        text
    } else if !prev_day && day_check >= 0 {
        let mut text = clock;
        proof {
            reveal_strlit(" =>");
        }
        text.append(" =>");
        text
    } else {
        clock
    }
}

/// `get_time_string_from_index` where it does not panic, `None` otherwise.
pub fn checked_time_string_from_index(value: i64, start_time: &str) -> (text: Option<String>)
    ensures
        match text {
            Some(t) => time_string_defined(value, start_time@) && t@ == time_string(value, start_time@),
            None => !time_string_defined(value, start_time@),
        },
{
    if value < -10_248_191_152_060 || value > 10_248_191_152_060 {
        return None;
    }
    let prev_day = has_char(start_time, '*');
    let parsed = if prev_day {
        if !start_time.is_char_boundary(2) {
            return None;
        }
        let (_, rest) = start_time.split_at(2);
        proof {
            encode_utf8_decode_utf8(rest@);
            assert(rest@ == clock_part(start_time@));
        }
        parse_twelve_hour(rest)
    } else {
        parse_twelve_hour(start_time)
    };
    if parsed.is_none() {
        return None;
    }
    Some(get_time_string_from_index(value, start_time))
}

/// How many minutes after the start of the slider midday comes, wrapped into one day.
pub open spec fn midday_offset(start: ClockTime) -> int {
    let d = div_toward_zero(43200 - start.seconds_of_day(), 60);
    if d < 0 {
        d + 1440
    } else {
        d
    }
}

/// The position of midday on the slider, in minutes after its start (the share of
/// the day is this over 1440).
pub fn calc_offset_for_midday(curr_start_time_tz: &ZonedDateTime) -> (offset: i64)
    requires
        curr_start_time_tz.time.wf(),
    ensures
        offset == midday_offset(curr_start_time_tz.time),
        0 <= offset < 1440,
        reaches_midday(curr_start_time_tz.time, offset as int),
{
    proof {
        lemma_midday_offset_reaches_midday(curr_start_time_tz.time);
    }
    let midday = ClockTime::new(12, 0, 0);
    let mut offset = minutes_between(&curr_start_time_tz.time, &midday);
    if offset < 0 {
        offset = offset + 24 * 60;
    }
    offset
}

/// Moving on `offset` minutes from `start` reaches midday, within the minute: the
/// clock then shows a time less than a minute away from 12:00:00.
pub open spec fn reaches_midday(start: ClockTime, offset: int) -> bool {
    &&& 0 <= offset < 1440
    &&& 43140 < (start.seconds_of_day() + 60 * offset) % 86400 < 43260
}

/// The midday offset leads forward from the start, within one day, to midday.
pub proof fn lemma_midday_offset_reaches_midday(start: ClockTime)
    requires
        start.wf(),
    ensures
        reaches_midday(start, midday_offset(start)),
{
    let sod = start.seconds_of_day();
    let x = 43200 - sod;
    let d = div_toward_zero(x, 60);
    assert(0 <= sod < 86400);
    if x >= 0 {
        assert(60 * d <= x < 60 * d + 60 && d >= 0) by (nonlinear_arith)
            requires
                d == x / 60,
                x >= 0,
        ;
        assert(midday_offset(start) == d);
        assert((sod + 60 * d) % 86400 == sod + 60 * d);
    } else {
        let q = (-x) / 60;
        assert(60 * q <= -x < 60 * q + 60 && q >= 0) by (nonlinear_arith)
            requires
                q == (-x) / 60,
                x < 0,
        ;
        assert(d == -q);
        if d < 0 {
            assert(midday_offset(start) == d + 1440);
            assert(sod + 60 * (d + 1440) == (sod - 60 * q) + 86400);
            assert((sod + 60 * (d + 1440)) % 86400 == sod - 60 * q);
        } else {
            assert(midday_offset(start) == 0);
            assert((sod + 60 * 0) % 86400 == sod);
        }
    }
}

/// From a start on a whole minute, the midday offset lands exactly on 12:00.
pub proof fn lemma_midday_offset_lands_on_noon(start: ClockTime)
    requires
        start.wf(),
        start.second == 0,
    ensures
        (start.hour * 60 + start.minute + midday_offset(start)) % 1440 == 720,
{
    let m = start.hour * 60 + start.minute;
    assert(43200 - start.seconds_of_day() == 60 * (720 - m));
    let k = 720 - m;
    if k >= 0 {
        assert((60 * k) / 60 == k) by (nonlinear_arith)
            requires
                k >= 0,
        ;
    } else {
        assert((60 * (-k)) / 60 == -k) by (nonlinear_arith)
            requires
                k < 0,
        ;
    }
}

} // verus!
