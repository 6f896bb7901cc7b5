//! The month, year and year-group predicates.

use date_constraints::{Date, DateConstraints, DateConstraintsBuilder};

fn date(year: i32, month: u8, day: u8) -> Date {
    Date::new(year, month, day).expect("valid date")
}

#[test]
fn is_month_forbidden_default_no_bounds() {
    assert!(!DateConstraints::default().is_month_forbidden(&date(1, 12, 25)));
    assert!(!DateConstraints::default().is_month_forbidden(&date(3000, 3, 22)));
}

#[test]
fn is_month_forbidden_disabled_months_not_allowed() {
    let config = DateConstraintsBuilder::default().disabled_months(vec![1]).build().unwrap();
    assert!(config.is_month_forbidden(&date(1, 1, 15)));
    assert!(config.is_month_forbidden(&date(3000, 1, 27)));
    assert!(!config.is_month_forbidden(&date(3000, 2, 27)));
}

#[test]
fn is_month_forbidden_disabled_years_not_allowed() {
    let config = DateConstraintsBuilder::default().disabled_years(vec![2000]).build().unwrap();
    assert!(config.is_month_forbidden(&date(2000, 1, 1)));
    assert!(config.is_month_forbidden(&date(2000, 12, 27)));
    assert!(!config.is_month_forbidden(&date(2001, 1, 1)));
}

#[test]
fn is_month_forbidden_every_day_disabled() {
    // Disabling days 1 through 31 leaves no selectable day in any month.
    let all_days: Vec<u8> = (1..=31).collect();
    let config = DateConstraintsBuilder::default()
        .disabled_monthly_dates(all_days)
        .build()
        .unwrap();
    assert!(config.is_month_forbidden(&date(2021, 1, 1)));
    assert!(config.is_month_forbidden(&date(2021, 2, 1)));
}

#[test]
fn is_month_forbidden_one_free_day_is_enough() {
    // 30 of the 31 days of January disabled: the month is not forbidden.
    let most_days: Vec<u8> = (1..=30).collect();
    let config = DateConstraintsBuilder::default()
        .disabled_monthly_dates(most_days)
        .build()
        .unwrap();
    assert!(!config.is_month_forbidden(&date(2021, 1, 1)));
}

#[test]
fn is_month_forbidden_february_respects_leap_years() {
    // Days 1 through 28 disabled: February is fully forbidden in a common
    // year but keeps the 29th free in a leap year.
    let four_weeks: Vec<u8> = (1..=28).collect();
    let config = DateConstraintsBuilder::default()
        .disabled_monthly_dates(four_weeks)
        .build()
        .unwrap();
    assert!(config.is_month_forbidden(&date(2021, 2, 1)));
    assert!(!config.is_month_forbidden(&date(2020, 2, 1)));
}

#[test]
fn is_month_forbidden_by_date_range() {
    let config = DateConstraintsBuilder::default()
        .min_date(date(2020, 10, 15))
        .build()
        .unwrap();
    // September 2020 lies entirely before the lower bound; October keeps
    // its 15th and later days.
    assert!(config.is_month_forbidden(&date(2020, 9, 1)));
    assert!(!config.is_month_forbidden(&date(2020, 10, 1)));
    assert!(!config.is_month_forbidden(&date(2020, 11, 1)));
}

#[test]
fn is_year_forbidden_default_no_bounds() {
    assert!(!DateConstraints::default().is_year_forbidden(1));
    assert!(!DateConstraints::default().is_year_forbidden(3000));
}

#[test]
fn is_year_forbidden_disabled_years_not_allowed() {
    for year in [1, 2000, 3000] {
        let config = DateConstraintsBuilder::default().disabled_years(vec![year]).build().unwrap();
        assert!(config.is_year_forbidden(year));
        assert!(!config.is_year_forbidden(year + 1));
    }
}

#[test]
fn is_year_forbidden_all_months_disabled() {
    let all_months: Vec<u8> = (1..=12).collect();
    let config = DateConstraintsBuilder::default().disabled_months(all_months).build().unwrap();
    assert!(config.is_year_forbidden(2021));
    let most_months: Vec<u8> = (1..=11).collect();
    let config = DateConstraintsBuilder::default().disabled_months(most_months).build().unwrap();
    assert!(!config.is_year_forbidden(2021));
}

#[test]
fn is_year_group_forbidden_disabled_years_not_allowed() {
    // Disabling a full 20-year group forbids the group for any member year.
    // The group of 2000 is [2000, 2019], the group of 1 is [0, 19], the
    // group of 3000 is [3000, 3019].
    for (start, member) in [(2000, 2000), (2000, 2010), (2000, 2019), (0, 1), (3000, 3000)] {
        let years: Vec<i32> = (start..start + 20).collect();
        let config = DateConstraintsBuilder::default().disabled_years(years).build().unwrap();
        assert!(config.is_year_group_forbidden(member));
    }
}

#[test]
fn is_year_group_forbidden_one_free_year_is_enough() {
    let years: Vec<i32> = (2000..2019).collect();
    let config = DateConstraintsBuilder::default().disabled_years(years).build().unwrap();
    assert!(!config.is_year_group_forbidden(2000));
    assert!(!config.is_year_group_forbidden(2019));
}

#[test]
fn is_year_group_forbidden_negative_years() {
    // Groups extend symmetrically before the epoch: the group of -5 is
    // [-20, -1].
    let years: Vec<i32> = (-20..0).collect();
    let config = DateConstraintsBuilder::default().disabled_years(years).build().unwrap();
    assert!(config.is_year_group_forbidden(-5));
    assert!(config.is_year_group_forbidden(-20));
    assert!(!config.is_year_group_forbidden(0));
}

#[test]
fn aggregate_repeated_evaluation_is_stable() {
    let config = DateConstraintsBuilder::default().disabled_years(vec![2000]).build().unwrap();
    let info = date(2000, 3, 1);
    assert_eq!(config.is_month_forbidden(&info), config.is_month_forbidden(&info));
    assert_eq!(config.is_year_forbidden(2000), config.is_year_forbidden(2000));
    assert_eq!(
        config.is_year_group_forbidden(2000),
        config.is_year_group_forbidden(2000)
    );
}
