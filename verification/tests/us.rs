use bankholiday::calendar::{CalendarDate, Weekday};
use bankholiday::error::HolidayError;
use bankholiday::us::{is_bankholiday, BankHoliday};
use bankholiday::{is_holiday, Jurisdiction};

#[test]
fn us_rule_set_is_missing() {
    let independence_day = CalendarDate::from_ymd(2022, 7, 4).unwrap();
    assert_eq!(is_bankholiday(&independence_day), Err(HolidayError::NotImplemented));
    assert_eq!(independence_day.is_bankholiday(), Err(HolidayError::NotImplemented));
    assert_eq!(is_holiday(&independence_day, Jurisdiction::Us), Err(HolidayError::NotImplemented));
}

#[test]
fn us_rule_set_is_missing_for_any_value() {
    let odd = CalendarDate { year: 0, month: 0, day: 0, weekday: Weekday::Sun, ordinal: 0 };
    assert_eq!(is_bankholiday(&odd), Err(HolidayError::NotImplemented));
    let exception = CalendarDate::from_ymd(2022, 9, 19).unwrap();
    assert_eq!(is_bankholiday(&exception), Err(HolidayError::NotImplemented));
}
