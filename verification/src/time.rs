//! Calendar date-times, the shape in which an element's last-modification
//! time is recorded.

use vstd::prelude::*;

verus! {

use vstd::arithmetic::div_mod::lemma_mod_multiples_vanish;

/// Calendar date-time without timezone, at second granularity.
///
/// Only valid calendar points can be constructed: [`Timestamp::new`] checks
/// the month, the day (leap years included), the hour, the minute and the
/// second, in the proleptic Gregorian calendar.
#[derive(Debug, PartialEq, Eq, Structural, Clone, Copy, Hash)]
pub struct Timestamp {
    year: i32,
    month: u8,
    day: u8,
    hour: u8,
    minute: u8,
    second: u8,
}

/// Whether `y` has 366 days in the proleptic Gregorian calendar.
pub open spec fn spec_is_leap_year(y: int) -> bool {
    y % 4 == 0 && (y % 100 != 0 || y % 400 == 0)
}

/// How many days month `m` of year `y` has.
pub open spec fn spec_days_in_month(y: int, m: int) -> int
    recommends
        1 <= m <= 12,
{
    if m == 2 {
        if spec_is_leap_year(y) {
            29
        } else {
            28
        }
    } else if m == 4 || m == 6 || m == 9 || m == 11 {
        30
    } else {
        31
    }
}

/// Whether the six components name a calendar point.
pub open spec fn spec_valid_date(y: int, m: int, d: int, h: int, min: int, s: int) -> bool {
    &&& 1 <= m <= 12
    &&& 1 <= d <= spec_days_in_month(y, m)
    &&& 0 <= h < 24
    &&& 0 <= min < 60
    &&& 0 <= s < 60
}

/// Whether `year` has 366 days in the proleptic Gregorian calendar.
pub fn is_leap_year(year: i32) -> (r: bool)
    ensures
        r == spec_is_leap_year(year as int),
{
    let y: i64 = year as i64 + 2_400_000_000;
    proof {
        lemma_mod_multiples_vanish(600_000_000, year as int, 4);
        lemma_mod_multiples_vanish(24_000_000, year as int, 100);
        lemma_mod_multiples_vanish(6_000_000, year as int, 400);
    }
    y % 4 == 0 && (y % 100 != 0 || y % 400 == 0)
}

/// How many days `month` of `year` has.
pub fn days_in_month(year: i32, month: u8) -> (r: u8)
    requires
        1 <= month <= 12,
    ensures
        r as int == spec_days_in_month(year as int, month as int),
{
    if month == 2 {
        if is_leap_year(year) {
            29
        } else {
            28
        }
    } else if month == 4 || month == 6 || month == 9 || month == 11 {
        30
    } else {
        31
    }
}

impl Timestamp {
    /// The year component.
    pub closed spec fn spec_year(self) -> i32 {
        self.year
    }

    /// The month component.
    pub closed spec fn spec_month(self) -> u8 {
        self.month
    }

    /// The day-of-month component.
    pub closed spec fn spec_day(self) -> u8 {
        self.day
    }

    /// The hour component.
    pub closed spec fn spec_hour(self) -> u8 {
        self.hour
    }

    /// The minute component.
    pub closed spec fn spec_minute(self) -> u8 {
        self.minute
    }

    /// The second component.
    pub closed spec fn spec_second(self) -> u8 {
        self.second
    }

    /// The components name a calendar point. Every constructed value is
    /// well-formed.
    pub open spec fn wf(self) -> bool {
        spec_valid_date(
            self.spec_year() as int,
            self.spec_month() as int,
            self.spec_day() as int,
            self.spec_hour() as int,
            self.spec_minute() as int,
            self.spec_second() as int,
        )
    }

    /// Build a date-time, accepting exactly the valid calendar points.
    pub fn new(year: i32, month: u8, day: u8, hour: u8, minute: u8, second: u8) -> (r: Option<
        Timestamp,
    >)
        ensures
            r is Some <==> spec_valid_date(
                year as int,
                month as int,
                day as int,
                hour as int,
                minute as int,
                second as int,
            ),
            r matches Some(t) ==> {
                &&& t.wf()
                &&& t.spec_year() == year
                &&& t.spec_month() == month
                &&& t.spec_day() == day
                &&& t.spec_hour() == hour
                &&& t.spec_minute() == minute
                &&& t.spec_second() == second
            },
    {
        if 1 <= month && month <= 12 && 1 <= day && day <= days_in_month(year, month) && hour < 24
            && minute < 60 && second < 60 {
            Some(Timestamp { year, month, day, hour, minute, second })
        } else {
            None
        }
    }

    /// The year component.
    pub fn year(&self) -> (r: i32)
        ensures
            r == self.spec_year(),
    {
        self.year
    }

    /// The month component.
    pub fn month(&self) -> (r: u8)
        ensures
            r == self.spec_month(),
    {
        self.month
    }

    /// The day-of-month component.
    pub fn day(&self) -> (r: u8)
        ensures
            r == self.spec_day(),
    {
        self.day
    }

    /// The hour component.
    pub fn hour(&self) -> (r: u8)
        ensures
            r == self.spec_hour(),
    {
        self.hour
    }

    /// The minute component.
    pub fn minute(&self) -> (r: u8)
        ensures
            r == self.spec_minute(),
    {
        self.minute
    }

    /// The second component.
    pub fn second(&self) -> (r: u8)
        ensures
            r == self.spec_second(),
    {
        self.second
    }
}

} // verus!
