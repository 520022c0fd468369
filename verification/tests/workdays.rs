use api::models::Date;
use api::workdays::{Workdays, MAX_DAYS_FROM_CE, MIN_DAYS_FROM_CE};
use chrono::{Datelike, NaiveDate};

fn day(y: i32, m: u32, d: u32) -> Date {
    Date::new(NaiveDate::from_ymd_opt(y, m, d).unwrap().num_days_from_ce())
}

#[test]
fn day_bounds_are_chronos() {
    assert_eq!(MIN_DAYS_FROM_CE, NaiveDate::MIN.num_days_from_ce());
    assert_eq!(MAX_DAYS_FROM_CE, NaiveDate::MAX.num_days_from_ce());
}

#[test]
fn weekends_are_not_workdays() {
    assert!(Workdays::is_workday(day(2024, 5, 6))); // Monday
    assert!(Workdays::is_workday(day(2024, 5, 10))); // Friday
    assert!(!Workdays::is_workday(day(2024, 5, 11))); // Saturday
    assert!(!Workdays::is_workday(day(2024, 5, 12))); // Sunday
    assert!(Workdays::is_workday(Date::new(1))); // January 1 of year 1
}

#[test]
fn adding_workdays_skips_weekends() {
    assert_eq!(Workdays::add_workdays(day(2024, 5, 6), 0), day(2024, 5, 6));
    assert_eq!(Workdays::add_workdays(day(2024, 5, 6), 4), day(2024, 5, 10));
    assert_eq!(Workdays::add_workdays(day(2024, 5, 10), 1), day(2024, 5, 13));
    assert_eq!(Workdays::add_workdays(day(2024, 5, 11), 1), day(2024, 5, 13));
    assert_eq!(Workdays::add_workdays(day(2024, 5, 6), 10), day(2024, 5, 20));
    assert_eq!(Workdays::add_workdays(day(2024, 12, 27), 3), day(2025, 1, 1));
}

#[test]
fn the_day_reached_is_a_workday_after_the_start() {
    let start = day(2023, 2, 25);
    for n in 1..30u64 {
        let end = Workdays::add_workdays(start, n);
        assert!(Workdays::is_workday(end));
        assert!(end.days_from_ce > start.days_from_ce);
        let mut count = 0;
        for d in start.days_from_ce + 1..=end.days_from_ce {
            if Workdays::is_workday(Date::new(d)) {
                count += 1;
            }
        }
        assert_eq!(count, n);
    }
}

#[test]
fn checked_addition_stops_at_the_end_of_chronos_calendar() {
    assert_eq!(Workdays::checked_add_workdays(day(2024, 5, 10), 1), Some(day(2024, 5, 13)));
    assert_eq!(Workdays::checked_add_workdays(day(2024, 5, 10), 0), Some(day(2024, 5, 10)));
    assert_eq!(Workdays::checked_add_workdays(Date::new(MAX_DAYS_FROM_CE), 1), None);
    assert_eq!(Workdays::checked_add_workdays(Date::new(MAX_DAYS_FROM_CE - 10), 30), None);
}
