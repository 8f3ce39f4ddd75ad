use projects_tui::date::CalendarDate;

fn day(y: i32, m: u8, d: u8) -> CalendarDate {
    CalendarDate::new(y, m, d).expect("valid date")
}

#[test]
fn new_rejects_days_that_do_not_exist() {
    assert!(CalendarDate::new(2024, 2, 29).is_some());
    assert!(CalendarDate::new(2023, 2, 29).is_none());
    assert!(CalendarDate::new(2024, 13, 1).is_none());
    assert!(CalendarDate::new(2024, 4, 31).is_none());
    assert!(CalendarDate::new(10000, 1, 1).is_none());
}

#[test]
fn plus_days_crosses_month_and_year() {
    assert_eq!(day(2024, 12, 31).plus_days(1), Some(day(2025, 1, 1)));
    assert_eq!(day(2024, 3, 1).plus_days(-1), Some(day(2024, 2, 29)));
    assert_eq!(day(2023, 3, 1).plus_days(-1), Some(day(2023, 2, 28)));
    assert_eq!(day(2024, 1, 31).plus_days(7), Some(day(2024, 2, 7)));
    assert_eq!(day(2024, 1, 3).plus_days(-7), Some(day(2023, 12, 27)));
}

#[test]
fn plus_days_past_the_supported_range_is_none() {
    assert_eq!(day(9999, 12, 31).plus_days(1), None);
    assert_eq!(day(-9999, 1, 1).plus_days(-1), None);
    assert_eq!(day(2024, 1, 1).plus_days(9_000_000), None);
}

#[test]
fn with_month_rejects_a_missing_day() {
    assert_eq!(day(2024, 1, 31).with_month(2), None);
    assert_eq!(day(2024, 1, 29).with_month(2), Some(day(2024, 2, 29)));
    assert_eq!(day(2024, 3, 15).with_month(4), Some(day(2024, 4, 15)));
}

#[test]
fn with_year_rejects_february_29_of_a_common_year() {
    assert_eq!(day(2024, 2, 29).with_year(2023), None);
    assert_eq!(day(2024, 2, 29).with_year(2028), Some(day(2028, 2, 29)));
    assert_eq!(day(2024, 5, 6).with_year(10000), None);
}

#[test]
fn months_wrap_around_the_year() {
    assert_eq!(day(2024, 12, 1).next_month(), 1);
    assert_eq!(day(2024, 1, 1).previous_month(), 12);
    assert_eq!(day(2024, 6, 1).next_month(), 7);
}

#[test]
fn iso_text_round_trips() {
    assert_eq!(day(2024, 2, 5).to_iso_string(), "2024-02-05");
    assert_eq!(day(987, 11, 30).to_iso_string(), "0987-11-30");
    assert_eq!(CalendarDate::parse("2024-01-31"), Some(day(2024, 1, 31)));
    assert_eq!(CalendarDate::parse("1970-01-01"), Some(day(1970, 1, 1)));
    assert_eq!(CalendarDate::parse("2024-02-31"), None);
    assert_eq!(CalendarDate::parse("not a date"), None);
}
