use vstd::prelude::*;

verus! {

/// A calendar date (proleptic Gregorian), as its year, month and day.
#[derive(Clone, Copy, Debug, PartialEq, Eq, Structural)]
pub struct CivilDate {
    pub year: i32,
    pub month: u32,
    pub day: u32,
}

/// A time of day on a 24-hour clock.
#[derive(Clone, Copy, Debug, PartialEq, Eq, Structural)]
pub struct ClockTime {
    pub hour: u32,
    pub minute: u32,
    pub second: u32,
}

/// An instant together with the wall-clock date and time it shows in some zone.
#[derive(Clone, Copy, Debug, PartialEq, Eq, Structural)]
pub struct ZonedDateTime {
    /// Seconds since 1970-01-01 00:00:00 UTC.
    pub timestamp: i64,
    /// The local date in the zone.
    pub date: CivilDate,
    /// The local time of day in the zone.
    pub time: ClockTime,
}

impl ClockTime {
    /// The fields are those of a real time of day.
    pub open spec fn wf(self) -> bool {
        &&& self.hour < 24
        &&& self.minute < 60
        &&& self.second < 60
    }

    /// Seconds elapsed since midnight.
    pub open spec fn seconds_of_day(self) -> int {
        self.hour * 3600 + self.minute * 60 + self.second
    }

    pub open spec fn spec_new(hour: u32, minute: u32, second: u32) -> ClockTime {
        ClockTime { hour, minute, second }
    }

    /// Builds a time of day from its fields.
    pub fn new(hour: u32, minute: u32, second: u32) -> (t: ClockTime)
        ensures
            t == ClockTime::spec_new(hour, minute, second),
    {
        ClockTime { hour, minute, second }
    }
}

/// The time of day that lies `s` seconds after midnight.
pub open spec fn clock_of_seconds(s: int) -> ClockTime {
    ClockTime { hour: (s / 3600) as u32, minute: ((s % 3600) / 60) as u32, second: (s % 60) as u32 }
}

/// A valid time of day is determined by its seconds since midnight.
pub proof fn lemma_clock_of_seconds(t: ClockTime)
    requires
        t.wf(),
    ensures
        clock_of_seconds(t.seconds_of_day()) == t,
{
    let s = t.seconds_of_day();
    let h = t.hour as int;
    let m = t.minute as int;
    let sec = t.second as int;
    assert(s / 3600 == h && s % 3600 == m * 60 + sec) by (nonlinear_arith)
        requires
            s == h * 3600 + m * 60 + sec,
            0 <= h < 24,
            0 <= m < 60,
            0 <= sec < 60,
    ;
    assert((m * 60 + sec) / 60 == m) by (nonlinear_arith)
        requires
            0 <= m < 60,
            0 <= sec < 60,
    ;
    assert(s % 60 == sec) by (nonlinear_arith)
        requires
            s == h * 3600 + m * 60 + sec,
            0 <= sec < 60,
    ;
}

/// Every second of a day names a valid time of day, which lies that many seconds
/// after midnight.
pub proof fn lemma_seconds_name_a_time(s: int)
    requires
        0 <= s < 86400,
    ensures
        clock_of_seconds(s).wf(),
        clock_of_seconds(s).seconds_of_day() == s,
{
    assert(s / 3600 < 24 && (s % 3600) / 60 < 60 && s % 60 < 60) by (nonlinear_arith)
        requires
            0 <= s < 86400,
    ;
    assert(s == (s / 3600) * 3600 + ((s % 3600) / 60) * 60 + s % 60) by (nonlinear_arith)
        requires
            0 <= s,
    ;
}

} // verus!
