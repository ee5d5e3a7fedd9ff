//! Calendar time and Julian dates, in exact integer arithmetic.
//!
//! A Julian date is kept as a count of half days and a second of the day, so
//! that both day-number formulas of the toolkit are computed without rounding.
//! A caller that wants the day number in a number type of its own, floating
//! point or other, gets it with one division.

use crate::scalar::{computable, exact, Scalar};
use crate::series::{ratio, ratio_defined, ratio_of};
use chrono::{Datelike, NaiveDateTime, Timelike};
use vstd::arithmetic::div_mod::lemma_fundamental_div_mod_converse;
use vstd::prelude::*;

verus! {

/// chrono's `NaiveDateTime`: a calendar date and a time of day without a
/// time zone, carried through as an opaque value.
#[verifier::external_type_specification]
#[verifier::external_body]
pub struct ExNaiveDateTime(chrono::NaiveDateTime);

/// The fields of a calendar time as mathematical integers: the view of
/// [`CivilTime`].
pub struct CivilFields {
    pub year: int,
    pub month: int,
    pub day: int,
    pub hour: int,
    pub minute: int,
    pub second: int,
}

impl CivilFields {
    /// Every field lies in the range that a clock and a calendar page allow.
    /// The length of the month is not looked at: see [`Self::is_calendar_date`].
    pub open spec fn in_range(self) -> bool {
        &&& i32::MIN <= self.year <= i32::MAX
        &&& 1 <= self.month <= 12
        &&& 1 <= self.day <= 31
        &&& 0 <= self.hour <= 23
        &&& 0 <= self.minute <= 59
        &&& 0 <= self.second <= 59
    }

    /// The day exists in the proleptic Gregorian calendar.
    pub open spec fn is_calendar_date(self) -> bool {
        &&& 1 <= self.month <= 12
        &&& 1 <= self.day <= days_in_month(self.year, self.month)
    }

    /// Seconds since midnight.
    pub open spec fn second_of_day(self) -> int {
        3600 * self.hour + 60 * self.minute + self.second
    }

    /// Twice the Julian date at midnight of the day, by the Gregorian
    /// formula: January and February count as months 13 and 14 of the year
    /// before, `a` is the century, and `2 - a + a / 4` takes out the leap
    /// days that century years lose.
    pub open spec fn julian_half_days(self) -> int {
        let y = if self.month <= 2 { self.year - 1 } else { self.year };
        let m = if self.month <= 2 { self.month + 12 } else { self.month };
        let a = y / 100;
        let b = 2 - a + a / 4;
        2 * ((1461 * (y + 4716)) / 4 + (306001 * (m + 1)) / 10000 + self.day + b) - 3049
    }

    /// Twice the day number of the legacy formula at midnight of the day.
    /// Its second term leaves the year out, so it is no Julian date: see
    /// [`crate::time_laws::lemma_legacy_lag`].
    pub open spec fn legacy_half_days(self) -> int {
        2 * (367 * self.year - (7 * ((self.month + 9) / 12)) / 4 + (275 * self.month) / 9
            + self.day) + 3442027
    }

    /// The Julian date in seconds: 43200 for each half day, and the seconds
    /// since midnight.
    pub open spec fn julian_seconds(self) -> int {
        43200 * self.julian_half_days() + self.second_of_day()
    }

    /// This calendar time comes before `other`: the fields are compared from
    /// the year down to the second.
    pub open spec fn is_before(self, other: CivilFields) -> bool {
        ||| self.year < other.year
        ||| self.year == other.year && self.month < other.month
        ||| self.year == other.year && self.month == other.month && self.day < other.day
        ||| self.year == other.year && self.month == other.month && self.day == other.day
            && self.second_of_day() < other.second_of_day()
    }

    /// The calendar day after this one, at the same time of day.
    pub open spec fn next_day(self) -> CivilFields {
        if self.day < days_in_month(self.year, self.month) {
            CivilFields { day: self.day + 1, ..self }
        } else if self.month < 12 {
            CivilFields { month: self.month + 1, day: 1, ..self }
        } else {
            CivilFields { year: self.year + 1, month: 1, day: 1, ..self }
        }
    }
}

/// The seconds from the calendar time `from` to the calendar time `to`,
/// without leap seconds.
pub open spec fn seconds_between(from: CivilFields, to: CivilFields) -> i64 {
    (to.julian_seconds() - from.julian_seconds()) as i64
}

/// Gregorian leap years: every fourth year, but of the century years only
/// every fourth.
pub open spec fn is_leap_year(year: int) -> bool {
    year % 4 == 0 && (year % 100 != 0 || year % 400 == 0)
}

/// The number of days of a month of the Gregorian calendar.
pub open spec fn days_in_month(year: int, month: int) -> int {
    if month == 2 {
        if is_leap_year(year) {
            29
        } else {
            28
        }
    } else if month == 4 || month == 6 || month == 9 || month == 11 {
        30
    } else {
        31
    }
}

/// A calendar date and a time of day: each field in its range, and a day that
/// its month has.
#[derive(Clone, Copy, Debug, PartialEq, Eq)]
pub struct CivilTime {
    year: i32,
    month: u32,
    day: u32,
    hour: u32,
    minute: u32,
    second: u32,
}

impl View for CivilTime {
    type V = CivilFields;

    closed spec fn view(&self) -> CivilFields {
        CivilFields {
            year: self.year as int,
            month: self.month as int,
            day: self.day as int,
            hour: self.hour as int,
            minute: self.minute as int,
            second: self.second as int,
        }
    }
}

impl CivilTime {
    #[verifier::type_invariant]
    spec fn is_a_day_of_the_calendar(self) -> bool {
        self@.in_range() && self@.is_calendar_date()
    }

    /// The calendar time with these fields, or `None` if one of them is out
    /// of its range or the month does not have the day: 31 February is
    /// refused, and 29 February in a year that is no leap year.
    pub fn new(year: i32, month: u32, day: u32, hour: u32, minute: u32, second: u32) -> (r: Option<
        CivilTime,
    >)
        ensures
            r.is_some() <==> ({
                let c = CivilFields {
                    year: year as int,
                    month: month as int,
                    day: day as int,
                    hour: hour as int,
                    minute: minute as int,
                    second: second as int,
                };
                c.in_range() && c.is_calendar_date()
            }),
            r matches Some(c) ==> c@ == (CivilFields {
                year: year as int,
                month: month as int,
                day: day as int,
                hour: hour as int,
                minute: minute as int,
                second: second as int,
            }),
    {
        if 1 <= month && month <= 12 && 1 <= day && day <= month_length(year, month) && hour <= 23
            && minute <= 59 && second <= 59 {
            Some(CivilTime { year, month, day, hour, minute, second })
        } else {
            None
        }
    }

    pub fn year(&self) -> (r: i32)
        ensures
            r == self@.year,
    {
        self.year
    }

    pub fn month(&self) -> (r: u32)
        ensures
            r == self@.month,
            1 <= r <= 12,
    {
        proof {
            use_type_invariant(self);
        }
        self.month
    }

    pub fn day(&self) -> (r: u32)
        ensures
            r == self@.day,
            1 <= r <= days_in_month(self@.year, self@.month),
    {
        proof {
            use_type_invariant(self);
        }
        self.day
    }

    pub fn hour(&self) -> (r: u32)
        ensures
            r == self@.hour,
            r <= 23,
    {
        proof {
            use_type_invariant(self);
        }
        self.hour
    }

    pub fn minute(&self) -> (r: u32)
        ensures
            r == self@.minute,
            r <= 59,
    {
        proof {
            use_type_invariant(self);
        }
        self.minute
    }

    pub fn second(&self) -> (r: u32)
        ensures
            r == self@.second,
            r <= 59,
    {
        proof {
            use_type_invariant(self);
        }
        self.second
    }

    /// Seconds since midnight.
    pub fn second_of_day(&self) -> (r: u32)
        ensures
            r == self@.second_of_day(),
            r < 86400,
    {
        proof {
            use_type_invariant(self);
        }
        3600 * self.hour + 60 * self.minute + self.second
    }

    /// The Julian date of this calendar time, read in the Gregorian calendar.
    /// The calendar time is a day of the calendar, with every field in its
    /// range: the laws of the calendar hold of it.
    pub fn julian_date(&self) -> (jd: JulianDate)
        ensures
            jd.half_days == self@.julian_half_days(),
            jd.second_of_day == self@.second_of_day(),
            jd.wf(),
            self@.in_range(),
            self@.is_calendar_date(),
    {
        proof {
            use_type_invariant(self);
        }
        let early: bool = self.month <= 2;
        let y: i64 = if early {
            self.year as i64 - 1
        } else {
            self.year as i64
        };
        let m: i64 = if early {
            self.month as i64 + 12
        } else {
            self.month as i64
        };
        let a: i64 = floor_div(y, 100);
        let b: i64 = 2 - a + floor_div(a, 4);
        let days: i64 = floor_div(1461 * (y + 4716), 4) + (306001 * (m + 1)) / 10000
            + self.day as i64 + b;
        JulianDate { half_days: 2 * days - 3049, second_of_day: self.second_of_day() }
    }

    /// The seconds from this calendar time to `later`, without leap
    /// seconds: negative if `later` is the earlier one.
    pub fn seconds_until(&self, later: &CivilTime) -> (r: i64)
        ensures
            r == later@.julian_seconds() - self@.julian_seconds(),
            r == seconds_between(self@, later@),
    {
        proof {
            use_type_invariant(self);
            use_type_invariant(later);
        }
        let from = self.julian_date();
        let to = later.julian_date();
        assert(-3200000000000 <= from.half_days <= 3200000000000 && -3200000000000 <= to.half_days
            <= 3200000000000) by {
            lemma_julian_half_days_are_bounded(self@);
            lemma_julian_half_days_are_bounded(later@);
        }
        43200 * (to.half_days - from.half_days) + (to.second_of_day as i64 - from.second_of_day as i64)
    }

    /// The day number of the legacy formula, which the frame pipeline feeds
    /// to its rotation matrices.
    pub fn legacy_julian_date(&self) -> (jd: JulianDate)
        ensures
            jd.half_days == self@.legacy_half_days(),
            jd.second_of_day == self@.second_of_day(),
            jd.wf(),
    {
        proof {
            use_type_invariant(self);
        }
        let y: i64 = self.year as i64;
        let m: i64 = self.month as i64;
        let term_1: i64 = 367 * y;
        let term_2: i64 = (7 * ((m + 9) / 12)) / 4;
        let term_3: i64 = (275 * m) / 9;
        let days: i64 = term_1 - term_2 + term_3 + self.day as i64;
        JulianDate { half_days: 2 * days + 3442027, second_of_day: self.second_of_day() }
    }
}

/// An instant as a day number and a fraction of a day, both exact: the day
/// number is `half_days / 2` and the fraction `second_of_day / 86400`.
#[derive(Clone, Copy, Debug, PartialEq, Eq)]
pub struct JulianDate {
    pub half_days: i64,
    pub second_of_day: u32,
}

impl JulianDate {
    /// The fraction is less than one day.
    pub open spec fn wf(self) -> bool {
        self.second_of_day < 86400
    }

    /// The day number as a number of `T`: the half days over two.
    pub open spec fn day_number_as<T: Scalar>(self) -> T {
        ratio::<T>([self.half_days, 2])
    }

    /// The fraction of the day as a number of `T`: the second of the day
    /// over the seconds of a day.
    pub open spec fn day_fraction_as<T: Scalar>(self) -> T {
        ratio::<T>([self.second_of_day as i64, 86400])
    }

    /// The day number as a number of `T`. It ends in one half, where `T` has
    /// halves.
    pub fn day_number<T: Scalar>(&self) -> (r: T)
        requires
            computable::<T>(ratio_defined::<T>([self.half_days, 2])),
        ensures
            exact::<T>() ==> r == self.day_number_as::<T>(),
    {
        ratio_of::<T>(&[self.half_days, 2])
    }

    /// The fraction of the day as a number of `T`.
    pub fn day_fraction<T: Scalar>(&self) -> (r: T)
        requires
            computable::<T>(ratio_defined::<T>([self.second_of_day as i64, 86400])),
        ensures
            exact::<T>() ==> r == self.day_fraction_as::<T>(),
    {
        ratio_of::<T>(&[self.second_of_day as i64, 86400])
    }
}

/// The number of days of a month of the Gregorian calendar.
fn month_length(year: i32, month: u32) -> (r: u32)
    requires
        1 <= month <= 12,
    ensures
        r == days_in_month(year as int, month as int),
{
    if month == 2 {
        // Four thousand million is a multiple of 400, and takes every year
        // of 32 bits above zero.
        let y: i64 = year as i64 + 4_000_000_000;
        assert(y % 4 == (year as int) % 4 && y % 100 == (year as int) % 100 && y % 400 == (
        year as int) % 400);
        if y % 4 == 0 && (y % 100 != 0 || y % 400 == 0) {
            29
        } else {
            28
        }
    } else if month == 4 || month == 6 || month == 9 || month == 11 {
        30
    } else {
        31
    }
}

/// The quotient of `n` by `d`, rounded towards minus infinity.
fn floor_div(n: i64, d: i64) -> (q: i64)
    requires
        d > 0,
    ensures
        q == n / d,
{
    if n >= 0 {
        n / d
    } else {
        let m: i64 = -(n + 1);
        let k: i64 = m / d;
        proof {
            let r = m as int % d as int;
            assert(m as int == d as int * (m as int / d as int) + r) by {
                vstd::arithmetic::div_mod::lemma_fundamental_div_mod(m as int, d as int);
            }
            assert(n as int == (-(k as int) - 1) * d as int + (d as int - 1 - r)) by (nonlinear_arith)
                requires
                    n as int == -(m as int) - 1,
                    m as int == d as int * (k as int) + r,
            ;
            lemma_fundamental_div_mod_converse(n as int, d as int, -(k as int) - 1, d as int - 1 - r);
        }
        -k - 1
    }
}

/// What `Datelike::year` of chrono returns for a date and time.
pub uninterp spec fn chrono_year(t: NaiveDateTime) -> int;

/// What `Datelike::month` of chrono returns for a date and time.
pub uninterp spec fn chrono_month(t: NaiveDateTime) -> int;

/// What `Datelike::day` of chrono returns for a date and time.
pub uninterp spec fn chrono_day(t: NaiveDateTime) -> int;

/// What `Timelike::hour` of chrono returns for a date and time.
pub uninterp spec fn chrono_hour(t: NaiveDateTime) -> int;

/// What `Timelike::minute` of chrono returns for a date and time.
pub uninterp spec fn chrono_minute(t: NaiveDateTime) -> int;

/// What `Timelike::second` of chrono returns for a date and time.
pub uninterp spec fn chrono_second(t: NaiveDateTime) -> int;

/// The calendar fields that chrono reads out of a date and time.
pub open spec fn civil_fields(t: NaiveDateTime) -> CivilFields {
    CivilFields {
        year: chrono_year(t),
        month: chrono_month(t),
        day: chrono_day(t),
        hour: chrono_hour(t),
        minute: chrono_minute(t),
        second: chrono_second(t),
    }
}

/// `Datelike::year` of chrono on a `NaiveDateTime`: the year of its calendar
/// date. Nothing is claimed of the number but that it depends on the date and
/// time alone.
#[verifier::external_body]
fn year_of(t: &NaiveDateTime) -> (year: i32)
    ensures
        year == chrono_year(*t),
{
    t.year()
}

/// `Datelike::month` of chrono on a `NaiveDateTime`. Claimed: the month
/// number counts from 1 and is at most 12.
#[verifier::external_body]
fn month_of(t: &NaiveDateTime) -> (month: u32)
    ensures
        month == chrono_month(*t),
        1 <= month <= 12,
{
    t.month()
}

/// `Datelike::day` of chrono on a `NaiveDateTime`. Claimed: the day of the
/// month counts from 1 and is at most 31. That the month has the day is not
/// claimed: [`civil_time`] tests it.
#[verifier::external_body]
fn day_of(t: &NaiveDateTime) -> (day: u32)
    ensures
        day == chrono_day(*t),
        1 <= day <= 31,
{
    t.day()
}

/// `Timelike::hour` of chrono on a `NaiveDateTime`. Claimed: the hour is at
/// most 23.
#[verifier::external_body]
fn hour_of(t: &NaiveDateTime) -> (hour: u32)
    ensures
        hour == chrono_hour(*t),
        hour <= 23,
{
    t.hour()
}

/// `Timelike::minute` of chrono on a `NaiveDateTime`. Claimed: the minute is
/// at most 59.
#[verifier::external_body]
fn minute_of(t: &NaiveDateTime) -> (minute: u32)
    ensures
        minute == chrono_minute(*t),
        minute <= 59,
{
    t.minute()
}

/// `Timelike::second` of chrono on a `NaiveDateTime`. Claimed: the second is
/// at most 59, in a leap second too.
#[verifier::external_body]
fn second_of(t: &NaiveDateTime) -> (second: u32)
    ensures
        second == chrono_second(*t),
        second <= 59,
{
    t.second()
}

/// The calendar time of a chrono date and time: the fields that chrono reads
/// out of it, if they are a day of the calendar, as those of a chrono value
/// are. This is where a chrono value enters the library: every other
/// function takes the [`CivilTime`] that this one returns.
pub fn civil_time(utc_time: &NaiveDateTime) -> (r: Option<CivilTime>)
    ensures
        r.is_some() <==> civil_fields(*utc_time).is_calendar_date(),
        r matches Some(c) ==> c@ == civil_fields(*utc_time),
{
    CivilTime::new(
        year_of(utc_time),
        month_of(utc_time),
        day_of(utc_time),
        hour_of(utc_time),
        minute_of(utc_time),
        second_of(utc_time),
    )
}

/// The Julian date of a calendar time, by the Gregorian formula.
pub fn jday(utc_time: &CivilTime) -> (jd: JulianDate)
    ensures
        jd.half_days == utc_time@.julian_half_days(),
        jd.second_of_day == utc_time@.second_of_day(),
        jd.wf(),
        utc_time@.in_range(),
        utc_time@.is_calendar_date(),
{
    utc_time.julian_date()
}

/// The day number of a calendar time by the legacy formula, which the frame
/// pipeline feeds to its rotation matrices.
pub fn old_maybe_broken_jday(utc_time: &CivilTime) -> (jd: JulianDate)
    ensures
        jd.half_days == utc_time@.legacy_half_days(),
        jd.second_of_day == utc_time@.second_of_day(),
        jd.wf(),
{
    utc_time.legacy_julian_date()
}

/// The Julian date of a year that fits in 32 bits stays far inside 64 bits.
proof fn lemma_julian_half_days_are_bounded(c: CivilFields)
    requires
        c.in_range(),
    ensures
        -3200000000000 <= c.julian_half_days() <= 3200000000000,
{
    let y = if c.month <= 2 { c.year - 1 } else { c.year };
    let m = if c.month <= 2 { c.month + 12 } else { c.month };
    let a = y / 100;
    assert(-2147483650 <= y <= 2147483647);
    assert(-21474837 <= a <= 21474836);
    assert(-5368710 <= a / 4 <= 5368709);
    assert(-784400000000 <= (1461 * (y + 4716)) / 4 <= 784400000000);
    assert(0 <= (306001 * (m + 1)) / 10000 <= 459);
}

} // verus!
