use chrono::{NaiveDate, NaiveDateTime};
use geonav::time::{civil_time, jday, old_maybe_broken_jday, CivilTime, JulianDate};

fn at(year: i32, month: u32, day: u32, hour: u32, minute: u32, second: u32) -> NaiveDateTime {
    NaiveDate::from_ymd_opt(year, month, day)
        .unwrap()
        .and_hms_opt(hour, minute, second)
        .unwrap()
}

fn civil(year: i32, month: u32, day: u32, hour: u32, minute: u32, second: u32) -> CivilTime {
    CivilTime::new(year, month, day, hour, minute, second).unwrap()
}

/// The day number with its fraction, as the floating-point callers form it.
fn days(jd: &JulianDate) -> f64 {
    jd.day_number::<f64>() + jd.day_fraction::<f64>()
}

#[test]
fn julian_date_of_the_standard_epoch() {
    let jd = civil(2000, 1, 1, 12, 0, 0).julian_date();
    assert_eq!(jd, JulianDate { half_days: 4903089, second_of_day: 43200 });
    assert_eq!(days(&jd), 2451545.0);
}

#[test]
fn julian_date_of_known_days() {
    // The Unix epoch and the epoch of the modified Julian date.
    assert_eq!(days(&civil(1970, 1, 1, 0, 0, 0).julian_date()), 2440587.5);
    assert_eq!(days(&civil(1858, 11, 17, 0, 0, 0).julian_date()), 2400000.5);
    // The first day of the Gregorian calendar.
    assert_eq!(days(&civil(1582, 10, 15, 0, 0, 0).julian_date()), 2299160.5);
    assert_eq!(days(&civil(2024, 3, 15, 0, 0, 0).julian_date()), 2460384.5);
    assert_eq!(days(&civil(2024, 2, 29, 18, 0, 0).julian_date()), 2460370.25);
}

#[test]
fn julian_date_before_the_common_era() {
    // Noon of 24 November 4714 BC, proleptic Gregorian, is Julian date zero.
    let jd = civil(-4713, 11, 24, 12, 0, 0).julian_date();
    assert_eq!(jd, JulianDate { half_days: -1, second_of_day: 43200 });
    assert_eq!(days(&jd), 0.0);
    // One day earlier the day number is negative and still rounds down.
    let before = civil(-4713, 11, 23, 0, 0, 0).julian_date();
    assert_eq!(before.half_days, -3);
}

#[test]
fn julian_date_counts_seconds_of_the_day() {
    let jd = civil(2015, 9, 25, 23, 59, 59).julian_date();
    assert_eq!(jd.second_of_day, 86399);
    assert_eq!(civil(2015, 9, 25, 1, 2, 3).second_of_day(), 3723);
    assert_eq!(civil(2015, 9, 25, 0, 0, 0).julian_date().second_of_day, 0);
}

#[test]
fn next_day_is_one_day_later() {
    let pairs = [
        ((2023, 1, 14), (2023, 1, 15)),
        ((2023, 1, 31), (2023, 2, 1)),
        ((2023, 2, 28), (2023, 3, 1)),
        ((2024, 2, 28), (2024, 2, 29)),
        ((2024, 2, 29), (2024, 3, 1)),
        ((1900, 2, 28), (1900, 3, 1)),
        ((2000, 2, 29), (2000, 3, 1)),
        ((2023, 12, 31), (2024, 1, 1)),
        ((-1, 12, 31), (0, 1, 1)),
    ];
    for (today, tomorrow) in pairs {
        let a = civil(today.0, today.1, today.2, 6, 0, 0).julian_date();
        let b = civil(tomorrow.0, tomorrow.1, tomorrow.2, 6, 0, 0).julian_date();
        assert_eq!(b.half_days, a.half_days + 2);
        assert_eq!(b.second_of_day, a.second_of_day);
    }
}

#[test]
fn legacy_day_number_of_known_days() {
    let jd = civil(2000, 1, 1, 12, 0, 0).legacy_julian_date();
    assert_eq!(jd, JulianDate { half_days: 4910089, second_of_day: 43200 });
    assert_eq!(jd.day_number::<f64>(), 2455044.5);
    assert_eq!(jd.day_fraction::<f64>(), 0.5);
    let jd = civil(2024, 3, 15, 0, 0, 0).legacy_julian_date();
    assert_eq!(jd, JulianDate { half_days: 4927853, second_of_day: 0 });
}

#[test]
fn legacy_day_number_runs_ahead_by_the_year_term() {
    let cases = [(1900, 3, 1), (1999, 12, 31), (2000, 2, 29), (2024, 3, 15), (2100, 2, 28)];
    for (year, month, day) in cases {
        let c = civil(year, month, day, 0, 0, 0);
        let k = (month as i64 + 9) / 12;
        let lag = (7 * (year as i64 + k)) / 4 - (7 * k) / 4;
        assert_eq!(
            c.legacy_julian_date().half_days - c.julian_date().half_days,
            2 * lag
        );
    }
    // 3500 days at the standard epoch.
    let c = civil(2000, 1, 1, 12, 0, 0);
    assert_eq!(c.legacy_julian_date().half_days - c.julian_date().half_days, 7000);
}

#[test]
fn civil_time_rejects_fields_out_of_range() {
    assert!(CivilTime::new(2024, 0, 1, 0, 0, 0).is_none());
    assert!(CivilTime::new(2024, 13, 1, 0, 0, 0).is_none());
    assert!(CivilTime::new(2024, 1, 0, 0, 0, 0).is_none());
    assert!(CivilTime::new(2024, 1, 32, 0, 0, 0).is_none());
    assert!(CivilTime::new(2024, 1, 1, 24, 0, 0).is_none());
    assert!(CivilTime::new(2024, 1, 1, 0, 60, 0).is_none());
    assert!(CivilTime::new(2024, 1, 1, 0, 0, 60).is_none());
    assert!(CivilTime::new(i32::MIN, 1, 1, 0, 0, 0).is_some());
    assert!(CivilTime::new(i32::MAX, 12, 31, 23, 59, 59).is_some());
}

#[test]
fn civil_time_keeps_its_fields() {
    let c = civil(2015, 9, 25, 12, 34, 56);
    assert_eq!(
        (c.year(), c.month(), c.day(), c.hour(), c.minute(), c.second()),
        (2015, 9, 25, 12, 34, 56)
    );
}

#[test]
fn julian_date_at_the_ends_of_the_year_range() {
    let low = civil(i32::MIN, 1, 1, 0, 0, 0).julian_date();
    let high = civil(i32::MAX, 12, 31, 23, 59, 59).julian_date();
    assert!(low.half_days < 0 && high.half_days > 0);
    assert_eq!(low.half_days, -1_568_701_150_491);
    assert_eq!(high.half_days, 1_568_708_034_727);
}

#[test]
fn civil_time_reads_each_field_of_a_chrono_time() {
    let c = civil_time(&at(2015, 9, 25, 12, 34, 56)).unwrap();
    assert_eq!(c, civil(2015, 9, 25, 12, 34, 56));
    let c = civil_time(&at(-308, 3, 14, 23, 0, 59)).unwrap();
    assert_eq!(
        (c.year(), c.month(), c.day(), c.hour(), c.minute(), c.second()),
        (-308, 3, 14, 23, 0, 59)
    );
}

#[test]
fn civil_time_of_a_leap_second_has_second_59() {
    let leap = NaiveDate::from_ymd_opt(2016, 12, 31)
        .unwrap()
        .and_hms_milli_opt(23, 59, 59, 1_000)
        .unwrap();
    assert_eq!(civil_time(&leap).unwrap().second(), 59);
    assert_eq!(jday(&civil_time(&leap).unwrap()).second_of_day, 86399);
}

#[test]
fn jday_of_a_chrono_time() {
    assert_eq!(
        jday(&civil_time(&at(2000, 1, 1, 12, 0, 0)).unwrap()),
        JulianDate { half_days: 4903089, second_of_day: 43200 }
    );
    assert_eq!(days(&jday(&civil_time(&at(1970, 1, 1, 0, 0, 0)).unwrap())), 2440587.5);
    let t = at(2015, 9, 25, 12, 34, 56);
    assert_eq!(jday(&civil_time(&t).unwrap()), civil(2015, 9, 25, 12, 34, 56).julian_date());
}

#[test]
fn seconds_between_times_follow_the_unix_timestamp() {
    let epoch = civil_time(&at(1970, 1, 1, 0, 0, 0)).unwrap();
    for t in [
        at(1969, 7, 20, 20, 17, 40),
        at(2001, 9, 9, 1, 46, 40),
        at(2038, 1, 19, 3, 14, 7),
        at(1600, 2, 29, 0, 0, 1),
    ] {
        assert_eq!(epoch.seconds_until(&civil_time(&t).unwrap()), t.and_utc().timestamp());
        assert_eq!(civil_time(&t).unwrap().seconds_until(&epoch), -t.and_utc().timestamp());
    }
}

#[test]
fn old_maybe_broken_jday_of_a_chrono_time() {
    assert_eq!(
        old_maybe_broken_jday(&civil_time(&at(2000, 1, 1, 12, 0, 0)).unwrap()),
        JulianDate { half_days: 4910089, second_of_day: 43200 }
    );
    let t = at(2015, 9, 25, 12, 34, 56);
    assert_eq!(
        old_maybe_broken_jday(&civil_time(&t).unwrap()),
        civil(2015, 9, 25, 12, 34, 56).legacy_julian_date()
    );
    // 367 * 2015 - 1 + 275 * 9 / 9 + 25 + 1721013.5
    assert_eq!(old_maybe_broken_jday(&civil_time(&t).unwrap()).day_number::<f64>(), 2460817.5);
}

#[test]
fn julian_date_keeps_the_order_of_the_calendar() {
    let times = [
        civil(-4713, 11, 24, 12, 0, 0),
        civil(-1, 12, 31, 23, 59, 59),
        civil(0, 1, 1, 0, 0, 0),
        civil(1899, 12, 31, 0, 0, 0),
        civil(1900, 2, 28, 23, 59, 59),
        civil(1900, 3, 1, 0, 0, 0),
        civil(2000, 2, 29, 12, 0, 0),
        civil(2000, 2, 29, 12, 0, 1),
        civil(2000, 3, 1, 0, 0, 0),
        civil(2000, 12, 31, 23, 59, 59),
        civil(2001, 1, 1, 0, 0, 0),
        civil(2400, 2, 29, 0, 0, 0),
    ];
    for pair in times.windows(2) {
        let (a, b) = (pair[0].julian_date(), pair[1].julian_date());
        let seconds_a = 43200 * a.half_days + a.second_of_day as i64;
        let seconds_b = 43200 * b.half_days + b.second_of_day as i64;
        assert!(seconds_a < seconds_b);
    }
}

#[test]
fn day_number_and_fraction_in_other_number_types() {
    let jd = civil(2000, 1, 1, 18, 0, 0).julian_date();
    assert_eq!(jd.day_number::<f64>(), 2451544.5);
    assert_eq!(jd.day_fraction::<f64>(), 0.75);
    // Whole numbers have no halves.
    assert_eq!(jd.day_number::<i64>(), 2451544);
    assert_eq!(jd.day_fraction::<i64>(), 0);
    let far = civil(i32::MAX, 12, 31, 23, 59, 59).julian_date();
    assert_eq!(far.day_number::<i64>(), 784_354_017_363);
    assert_eq!(far.day_number::<f64>(), 784_354_017_363.5);
}

#[test]
fn seconds_until_counts_days_and_seconds() {
    let a = civil(2024, 2, 28, 23, 59, 50);
    assert_eq!(a.seconds_until(&civil(2024, 2, 29, 0, 0, 10)), 20);
    assert_eq!(a.seconds_until(&civil(2024, 3, 1, 23, 59, 50)), 2 * 86400);
    assert_eq!(a.seconds_until(&a), 0);
    assert_eq!(civil(2023, 2, 28, 0, 0, 0).seconds_until(&civil(2023, 3, 1, 0, 0, 0)), 86400);
    assert_eq!(
        civil(i32::MIN, 1, 1, 0, 0, 0).seconds_until(&civil(i32::MAX, 12, 31, 23, 59, 59)),
        135_536_076_801_503_999
    );
}

#[test]
fn civil_time_rejects_days_that_the_month_does_not_have() {
    assert!(CivilTime::new(2024, 2, 29, 0, 0, 0).is_some());
    assert!(CivilTime::new(2024, 2, 30, 0, 0, 0).is_none());
    assert!(CivilTime::new(2023, 2, 29, 0, 0, 0).is_none());
    assert!(CivilTime::new(2023, 2, 31, 12, 0, 0).is_none());
    assert!(CivilTime::new(1900, 2, 29, 0, 0, 0).is_none());
    assert!(CivilTime::new(2000, 2, 29, 0, 0, 0).is_some());
    assert!(CivilTime::new(-4, 2, 29, 0, 0, 0).is_some());
    assert!(CivilTime::new(-100, 2, 29, 0, 0, 0).is_none());
    assert!(CivilTime::new(-400, 2, 29, 0, 0, 0).is_some());
    assert!(CivilTime::new(i32::MIN, 2, 29, 0, 0, 0).is_some());
    assert!(CivilTime::new(i32::MAX, 2, 29, 0, 0, 0).is_none());
    for month in [4, 6, 9, 11] {
        assert!(CivilTime::new(2023, month, 30, 0, 0, 0).is_some());
        assert!(CivilTime::new(2023, month, 31, 0, 0, 0).is_none());
    }
    for month in [1, 3, 5, 7, 8, 10, 12] {
        assert!(CivilTime::new(2023, month, 31, 0, 0, 0).is_some());
    }
}

#[test]
fn civil_time_of_every_kind_of_month_end() {
    for (year, month, day) in [(2024, 2, 29), (2023, 2, 28), (2023, 4, 30), (2023, 12, 31)] {
        let c = civil_time(&at(year, month, day, 0, 0, 0));
        assert_eq!(c, CivilTime::new(year, month, day, 0, 0, 0));
        assert!(c.is_some());
    }
}
