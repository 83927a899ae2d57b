use bankholiday::calendar::{CalendarDate, Weekday, MAX_YEAR, MIN_YEAR};
use chrono::{Datelike, NaiveDate};

const WEEKDAYS: [Weekday; 7] = [
    Weekday::Mon,
    Weekday::Tue,
    Weekday::Wed,
    Weekday::Thu,
    Weekday::Fri,
    Weekday::Sat,
    Weekday::Sun,
];

fn leap(year: i64) -> bool {
    year.rem_euclid(4) == 0 && (year.rem_euclid(100) != 0 || year.rem_euclid(400) == 0)
}

fn month_length(year: i64, month: u32) -> u32 {
    match month {
        2 => {
            if leap(year) {
                29
            } else {
                28
            }
        }
        4 | 6 | 9 | 11 => 30,
        _ => 31,
    }
}

fn days_before_year(year: i64) -> i64 {
    let y = year - 1;
    365 * y + y.div_euclid(4) - y.div_euclid(100) + y.div_euclid(400)
}

fn check_years(years: std::ops::RangeInclusive<i32>) {
    for year in years {
        let mut ordinal = 0;
        for month in 1..=12 {
            let length = month_length(year as i64, month);
            for day in 1..=length {
                ordinal += 1;
                let date = CalendarDate::from_ymd(year, month, day).unwrap();
                let index = (days_before_year(year as i64) + ordinal as i64 - 1).rem_euclid(7);
                assert_eq!((date.year, date.month, date.day), (year, month, day));
                assert_eq!(date.ordinal, ordinal);
                assert_eq!(date.weekday, WEEKDAYS[index as usize]);
            }
            assert_eq!(CalendarDate::from_ymd(year, month, 0), None);
            assert_eq!(CalendarDate::from_ymd(year, month, length + 1), None);
        }
        assert_eq!(ordinal, if leap(year as i64) { 366 } else { 365 });
    }
}

#[test]
fn dates_follow_the_calendar_in_the_years_with_easter() {
    check_years(1583..=2600);
    check_years(9990..=9999);
}

#[test]
fn dates_follow_the_calendar_around_year_one() {
    check_years(-401..=401);
}

#[test]
fn dates_follow_the_calendar_at_the_ends() {
    check_years(MIN_YEAR..=MIN_YEAR + 3);
    check_years(MAX_YEAR - 3..=MAX_YEAR);
}

#[test]
fn known_dates() {
    let date = CalendarDate::from_ymd(2015, 9, 8).unwrap();
    assert_eq!(date.ordinal, 251);
    assert_eq!(date.weekday, Weekday::Tue);
    let date = CalendarDate::from_ymd(-308, 3, 14).unwrap();
    assert_eq!(date.ordinal, 74);
    assert_eq!(date.weekday, Weekday::Fri);
    let date = CalendarDate::from_ymd(1, 1, 1).unwrap();
    assert_eq!(date.ordinal, 1);
    assert_eq!(date.weekday, Weekday::Mon);
    let date = CalendarDate::from_ymd(2000, 12, 31).unwrap();
    assert_eq!(date.ordinal, 366);
    assert_eq!(date.weekday, Weekday::Sun);
    let date = CalendarDate::from_ymd(1999, 1, 1).unwrap();
    assert_eq!(
        date,
        CalendarDate { year: 1999, month: 1, day: 1, weekday: Weekday::Fri, ordinal: 1 }
    );
}

#[test]
fn what_is_no_date() {
    assert!(CalendarDate::from_ymd(2015, 3, 14).is_some());
    assert_eq!(CalendarDate::from_ymd(2015, 0, 14), None);
    assert_eq!(CalendarDate::from_ymd(2015, 13, 14), None);
    assert_eq!(CalendarDate::from_ymd(2015, 2, 29), None);
    assert!(CalendarDate::from_ymd(2016, 2, 29).is_some());
    assert_eq!(CalendarDate::from_ymd(1900, 2, 29), None);
    assert!(CalendarDate::from_ymd(2000, 2, 29).is_some());
    assert!(CalendarDate::from_ymd(-4, 2, 29).is_some());
    assert_eq!(CalendarDate::from_ymd(2023, 4, 31), None);
    assert_eq!(CalendarDate::from_ymd(2023, 1, 32), None);
    assert_eq!(CalendarDate::from_ymd(2023, u32::MAX, 1), None);
    assert_eq!(CalendarDate::from_ymd(2023, 1, u32::MAX), None);
}

#[test]
fn years_at_the_ends() {
    assert_eq!((MIN_YEAR, MAX_YEAR), (-262_143, 262_142));
    assert!(CalendarDate::from_ymd(MIN_YEAR, 1, 1).is_some());
    assert!(CalendarDate::from_ymd(MAX_YEAR, 12, 31).is_some());
    assert_eq!(CalendarDate::from_ymd(MIN_YEAR - 1, 12, 31), None);
    assert_eq!(CalendarDate::from_ymd(MAX_YEAR + 1, 1, 1), None);
    assert_eq!(CalendarDate::from_ymd(400_000, 1, 1), None);
    assert_eq!(CalendarDate::from_ymd(-400_000, 1, 1), None);
    assert_eq!(CalendarDate::from_ymd(i32::MAX, 1, 1), None);
    assert_eq!(CalendarDate::from_ymd(i32::MIN, 1, 1), None);
    assert_eq!(NaiveDate::MIN.year(), MIN_YEAR);
    assert_eq!(NaiveDate::MAX.year(), MAX_YEAR);
}

#[test]
fn weekdays_by_number() {
    for (index, &weekday) in WEEKDAYS.iter().enumerate() {
        assert_eq!(Weekday::from_index(index as u32), weekday);
    }
    assert_eq!(Weekday::from_index(7), Weekday::Sun);
    assert_eq!(Weekday::from_index(u32::MAX), Weekday::Sun);
}

#[test]
fn weekend() {
    assert!(Weekday::Sat.is_weekend());
    assert!(Weekday::Sun.is_weekend());
    for weekday in [Weekday::Mon, Weekday::Tue, Weekday::Wed, Weekday::Thu, Weekday::Fri] {
        assert!(!weekday.is_weekend());
    }
}
