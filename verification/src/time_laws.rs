//! What the two day-number formulas are worth: the Gregorian formula counts
//! the days of the calendar, keeps their order, and the legacy formula runs
//! ahead of it by a known number of days.

use crate::time::{days_in_month, is_leap_year, CivilFields};
use vstd::prelude::*;

verus! {

/// The part of the Gregorian formula that depends on the year alone: the
/// days of the years so far, with the century correction.
spec fn year_part(y: int) -> int {
    (1461 * (y + 4716)) / 4 + (2 - y / 100 + (y / 100) / 4)
}

/// The part of the Gregorian formula that depends on the month alone, for
/// March to December as months 3 to 12 and January and February as 13 and 14.
spec fn month_part(m: int) -> int {
    (306001 * (m + 1)) / 10000
}

/// The Gregorian formula, taken apart.
proof fn lemma_julian_half_days_in_parts(c: CivilFields)
    ensures
        c.month <= 2 ==> c.julian_half_days() == 2 * (year_part(c.year - 1) + month_part(
            c.month + 12,
        ) + c.day) - 3049,
        c.month > 2 ==> c.julian_half_days() == 2 * (year_part(c.year) + month_part(c.month)
            + c.day) - 3049,
{
}

/// Every fourth year has a day more.
proof fn lemma_quarter_years(y: int)
    ensures
        (1461 * (y + 4716)) / 4 - (1461 * (y - 1 + 4716)) / 4 == if y % 4 == 0 {
            366int
        } else {
            365
        },
{
    let q = y / 4;
    let r = y % 4;
    assert(y == 4 * q + r);
    if r == 0 {
        assert(1461 * (y + 4716) == 4 * (1461 * q + 1722519));
        assert(1461 * (y - 1 + 4716) == 4 * (1461 * q + 1722519 - 366) + 3);
    } else if r == 1 {
        assert(1461 * (y + 4716) == 4 * (1461 * q + 1722519 + 365) + 1);
        assert(1461 * (y - 1 + 4716) == 4 * (1461 * q + 1722519));
    } else if r == 2 {
        assert(1461 * (y + 4716) == 4 * (1461 * q + 1722519 + 730) + 2);
        assert(1461 * (y - 1 + 4716) == 4 * (1461 * q + 1722519 + 365) + 1);
    } else {
        assert(1461 * (y + 4716) == 4 * (1461 * q + 1722519 + 1095) + 3);
        assert(1461 * (y - 1 + 4716) == 4 * (1461 * q + 1722519 + 730) + 2);
    }
}

/// Every hundredth year loses its extra day, and every four hundredth keeps
/// it.
proof fn lemma_centuries(y: int)
    ensures
        y / 100 - (y - 1) / 100 == if y % 100 == 0 {
            1int
        } else {
            0
        },
        (y / 100) / 4 - ((y - 1) / 100) / 4 == if y % 400 == 0 {
            1int
        } else {
            0
        },
{
    let a = y / 100;
    let r = y % 100;
    assert(y == 100 * a + r);
    if r == 0 {
        assert(y - 1 == 100 * (a - 1) + 99);
        assert((y - 1) / 100 == a - 1);
        let k = a / 4;
        let t = a % 4;
        assert(a == 4 * k + t);
        assert(y == 400 * k + 100 * t);
        if t == 0 {
            assert(a - 1 == 4 * (k - 1) + 3);
            assert((a - 1) / 4 == k - 1);
            assert(y % 400 == 0);
        } else {
            assert((a - 1) / 4 == k);
            assert(y % 400 == 100 * t);
        }
    } else {
        assert(y - 1 == 100 * a + (r - 1));
        assert((y - 1) / 100 == a);
        assert(y % 400 != 0) by {
            if y % 400 == 0 {
                assert(y == 400 * (y / 400));
                assert(y == 100 * (4 * (y / 400)));
            }
        }
    }
}

/// From one year to the next the year part grows by the days of the year.
proof fn lemma_year_step(y: int)
    ensures
        year_part(y) - year_part(y - 1) == if is_leap_year(y) {
            366int
        } else {
            365
        },
{
    lemma_quarter_years(y);
    lemma_centuries(y);
    assert(y % 100 == 0 ==> y % 4 == 0) by {
        if y % 100 == 0 {
            assert(y == 100 * (y / 100));
            assert(y == 4 * (25 * (y / 100)));
        }
    }
    assert(y % 400 == 0 ==> y % 100 == 0) by {
        if y % 400 == 0 {
            assert(y == 400 * (y / 400));
            assert(y == 100 * (4 * (y / 400)));
        }
    }
}

/// The month part, month by month: it grows by the days of each month from
/// March on.
proof fn lemma_month_parts()
    ensures
        month_part(3) == 122,
        month_part(4) == 153,
        month_part(5) == 183,
        month_part(6) == 214,
        month_part(7) == 244,
        month_part(8) == 275,
        month_part(9) == 306,
        month_part(10) == 336,
        month_part(11) == 367,
        month_part(12) == 397,
        month_part(13) == 428,
        month_part(14) == 459,
{
}

/// The Gregorian formula counts days: on every day of the calendar, in every
/// year, the day after it has a Julian date that is one day later.
pub proof fn lemma_next_day_is_one_day_later(c: CivilFields)
    requires
        c.is_calendar_date(),
    ensures
        c.next_day().is_calendar_date(),
        c.next_day().julian_half_days() == c.julian_half_days() + 2,
        c.next_day().second_of_day() == c.second_of_day(),
{
    let n = c.next_day();
    lemma_julian_half_days_in_parts(c);
    lemma_julian_half_days_in_parts(n);
    lemma_month_parts();
    if c.day < days_in_month(c.year, c.month) {
    } else if c.month == 2 {
        lemma_year_step(c.year);
    } else {
    }
}

/// The Julian date orders instants as the calendar does: of two calendar
/// times, the one with the earlier date, or on the same date the earlier time
/// of day, has the smaller Julian date.
pub proof fn lemma_julian_date_is_monotonic(a: CivilFields, b: CivilFields)
    requires
        a.is_calendar_date(),
        b.is_calendar_date(),
        a.in_range(),
        b.in_range(),
        a.is_before(b),
    ensures
        a.julian_seconds() < b.julian_seconds(),
{
    lemma_julian_half_days_in_parts(a);
    lemma_julian_half_days_in_parts(b);
    lemma_month_parts();
    lemma_year_step(a.year);
    lemma_year_step(b.year);
    if a.year < b.year {
        // The last day of the earlier year is one day before the first of
        // the next, which is no later than the first of the later year.
        lemma_year_parts_grow(a.year, b.year - 1);
        let last = CivilFields { month: 12, day: 31, ..a };
        let first = CivilFields { month: 1, day: 1, ..b };
        lemma_julian_half_days_in_parts(last);
        lemma_julian_half_days_in_parts(first);
        assert(a.julian_half_days() <= last.julian_half_days());
        assert(last.julian_half_days() + 2 <= first.julian_half_days());
        assert(first.julian_half_days() <= b.julian_half_days());
    } else if a.month < b.month {
        assert(a.julian_half_days() + 2 <= b.julian_half_days());
    } else if a.day < b.day {
        assert(a.julian_half_days() + 2 <= b.julian_half_days());
    } else {
        assert(a.julian_half_days() == b.julian_half_days());
    }
}

/// The year part does not shrink from one year to a later one.
proof fn lemma_year_parts_grow(y1: int, y2: int)
    requires
        y1 <= y2,
    ensures
        year_part(y1) + 365 * (y2 - y1) <= year_part(y2),
    decreases y2 - y1,
{
    if y1 < y2 {
        lemma_year_parts_grow(y1, y2 - 1);
        lemma_year_step(y2);
    }
}

/// How far the legacy formula runs ahead of the Julian date. From 1 March
/// 1900 to 28 February 2100 the legacy day number is the Julian date plus the
/// term that it leaves the year out of: `7 * (year + k) / 4 - 7 * k / 4` days,
/// where `k` is 0 in January and February and 1 from March on.
pub proof fn lemma_legacy_lag(c: CivilFields)
    requires
        c.is_calendar_date(),
        1900 <= c.year <= 2100,
        c.year == 1900 ==> c.month >= 3,
        c.year == 2100 ==> c.month <= 2,
    ensures
        c.legacy_half_days() - c.julian_half_days() == 2 * ((7 * (c.year + (c.month + 9) / 12)) / 4
            - (7 * ((c.month + 9) / 12)) / 4),
{
    lemma_julian_half_days_in_parts(c);
    lemma_month_parts();
    lemma_legacy_month_terms(c.month);
    // With January and February moved to the year before, the year lies in
    // 1900..=2099, where the century correction is -13 throughout.
    let k = (c.month + 9) / 12;
    let y = c.year + k - 1;
    assert(1900 <= y <= 2099);
    let a = y / 100;
    assert(a == 19 || a == 20);
    assert(year_part(y) == (1461 * (y + 4716)) / 4 - 13);
    // Both formulas count a leap day for every fourth year.
    let q = (c.year + k) / 4;
    let r = (c.year + k) % 4;
    assert(c.year + k == 4 * q + r);
    if r == 0 {
        assert(7 * (c.year + k) == 4 * (7 * q));
        assert(1461 * (y + 4716) == 4 * (1461 * (q + 1179) - 366) + 3);
    } else if r == 1 {
        assert(7 * (c.year + k) == 4 * (7 * q + 1) + 3);
        assert(1461 * (y + 4716) == 4 * (1461 * (q + 1179)));
    } else if r == 2 {
        assert(7 * (c.year + k) == 4 * (7 * q + 3) + 2);
        assert(1461 * (y + 4716) == 4 * (1461 * (q + 1179) + 365) + 1);
    } else {
        assert(7 * (c.year + k) == 4 * (7 * q + 5) + 1);
        assert(1461 * (y + 4716) == 4 * (1461 * (q + 1179) + 730) + 2);
    }
}

/// The month terms of the legacy formula, month by month.
proof fn lemma_legacy_month_terms(month: int)
    requires
        1 <= month <= 12,
    ensures
        (month + 9) / 12 == if month <= 2 {
            0int
        } else {
            1
        },
        (7 * ((month + 9) / 12)) / 4 == if month <= 2 {
            0int
        } else {
            1
        },
        (275 * month) / 9 == if month == 1 {
            30int
        } else if month == 2 {
            61
        } else if month == 3 {
            91
        } else if month == 4 {
            122
        } else if month == 5 {
            152
        } else if month == 6 {
            183
        } else if month == 7 {
            213
        } else if month == 8 {
            244
        } else if month == 9 {
            275
        } else if month == 10 {
            305
        } else if month == 11 {
            336
        } else {
            366
        },
{
}

} // verus!
