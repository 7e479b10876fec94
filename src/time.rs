//! The local start time of an event, held as calendar fields.

use vstd::prelude::*;
use crate::text::{four_digits, push_char, push_four_digits, push_str, push_two_digits, two_digits};

verus! {

/// A local wall-clock instant to the minute.
#[derive(Clone, Copy, Debug, PartialEq, Eq)]
pub struct StartTime {
    pub year: u32,
    pub month: u32,
    pub day: u32,
    pub hour: u32,
    pub minute: u32,
}

pub open spec fn is_leap_year(y: int) -> bool {
    (y % 4 == 0 && y % 100 != 0) || y % 400 == 0
}

pub open spec fn days_in_month(y: int, m: int) -> int {
    if m == 2 {
        if is_leap_year(y) { 29 } else { 28 }
    } else if m == 4 || m == 6 || m == 9 || m == 11 {
        30
    } else {
        31
    }
}

impl StartTime {
    /// A real calendar date with a four-digit year, and a time of day.
    pub open spec fn wf(&self) -> bool {
        &&& self.year <= 9999
        &&& 1 <= self.month <= 12
        &&& 1 <= self.day <= days_in_month(self.year as int, self.month as int)
        &&& self.hour < 24
        &&& self.minute < 60
    }

    /// `HHMM`, hour and minute zero-padded, 24-hour clock.
    pub open spec fn hhmm(&self) -> Seq<char> {
        two_digits(self.hour as int) + two_digits(self.minute as int)
    }

    /// `YYYY-MM-DD`, the ISO calendar date.
    pub open spec fn iso_date(&self) -> Seq<char> {
        four_digits(self.year as int) + seq!['-'] + two_digits(self.month as int) + seq!['-']
            + two_digits(self.day as int)
    }

    /// `YYYYMMDDHHMM`, date and time run together.
    pub open spec fn stamp(&self) -> Seq<char> {
        four_digits(self.year as int) + two_digits(self.month as int) + two_digits(self.day as int)
            + self.hhmm()
    }

    /// Builds a start time from its fields; `None` where they name no valid
    /// date and time of day.
    pub fn new(year: u32, month: u32, day: u32, hour: u32, minute: u32) -> (r: Option<StartTime>)
        ensures
            r is Some <==> (StartTime { year, month, day, hour, minute }).wf(),
            r is Some ==> r->Some_0 == (StartTime { year, month, day, hour, minute }),
    {
        if year > 9999 || month < 1 || month > 12 || day < 1 || hour >= 24 || minute >= 60 {
            return None;
        }
        let leap = (year % 4 == 0 && year % 100 != 0) || year % 400 == 0;
        let max_day: u32 = if month == 2 {
            if leap { 29 } else { 28 }
        } else if month == 4 || month == 6 || month == 9 || month == 11 {
            30
        } else {
            31
        };
        if day > max_day {
            return None;
        }
        Some(StartTime { year, month, day, hour, minute })
    }

    /// The first minute of 1970-01-01, used where an event has no start time.
    pub fn epoch() -> (r: StartTime)
        ensures
            r.wf(),
            r == (StartTime { year: 1970, month: 1, day: 1, hour: 0, minute: 0 }),
    {
        StartTime { year: 1970, month: 1, day: 1, hour: 0, minute: 0 }
    }

    /// Appends `HHMM`.
    pub fn push_hhmm(&self, s: &mut String)
        requires
            self.wf(),
        ensures
            final(s)@ == old(s)@ + self.hhmm(),
    {
        push_two_digits(s, self.hour);
        push_two_digits(s, self.minute);
        assert(final(s)@ =~= old(s)@ + self.hhmm());
    }

    /// Appends `YYYY-MM-DD`.
    pub fn push_iso_date(&self, s: &mut String)
        requires
            self.wf(),
        ensures
            final(s)@ == old(s)@ + self.iso_date(),
    {
        push_four_digits(s, self.year);
        push_char(s, '-');
        push_two_digits(s, self.month);
        push_char(s, '-');
        push_two_digits(s, self.day);
        assert(final(s)@ =~= old(s)@ + self.iso_date());
    }

    /// Appends `YYYYMMDDHHMM`.
    pub fn push_stamp(&self, s: &mut String)
        requires
            self.wf(),
        ensures
            final(s)@ == old(s)@ + self.stamp(),
    {
        push_four_digits(s, self.year);
        push_two_digits(s, self.month);
        push_two_digits(s, self.day);
        self.push_hhmm(s);
        assert(final(s)@ =~= old(s)@ + self.stamp());
    }
}

impl Default for StartTime {
    fn default() -> (r: StartTime)
        ensures
            r == (StartTime { year: 1970, month: 1, day: 1, hour: 0, minute: 0 }),
    {
        StartTime::epoch()
    }
}

} // verus!
