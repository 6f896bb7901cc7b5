//! The day-level predicate under each kind of constraint.

use date_constraints::{Date, DateConstraints, DateConstraintsBuilder, HasDateConstraints};

fn date(year: i32, month: u8, day: u8) -> Date {
    Date::new(year, month, day).expect("valid date")
}

#[test]
fn is_day_forbidden_default_no_bounds() {
    assert!(!DateConstraints::default().is_day_forbidden(&date(1, 12, 25)));
    assert!(!DateConstraints::default().is_day_forbidden(&date(3000, 3, 22)));
}

#[test]
fn is_day_forbidden_at_min_date_allowed() {
    let d = date(2020, 10, 15);
    let config = DateConstraintsBuilder::default().min_date(d).build().unwrap();
    assert!(!config.is_day_forbidden(&d))
}

#[test]
fn is_day_forbidden_before_min_date_not_allowed() {
    let d = date(2020, 10, 15);
    let config = DateConstraintsBuilder::default().min_date(d).build().unwrap();
    assert!(config.is_day_forbidden(&date(2020, 10, 14)))
}

#[test]
fn is_day_forbidden_at_max_date_allowed() {
    let d = date(2020, 10, 15);
    let config = DateConstraintsBuilder::default().max_date(d).build().unwrap();
    assert!(!config.is_day_forbidden(&d))
}

#[test]
fn is_day_forbidden_after_max_date_not_allowed() {
    let d = date(2020, 10, 15);
    let config = DateConstraintsBuilder::default().max_date(d).build().unwrap();
    assert!(config.is_day_forbidden(&date(2020, 10, 16)))
}

#[test]
fn is_day_forbidden_disabled_weekday_not_allowed() {
    // 2020-10-12 is a Monday (weekday 0), 2020-10-17 a Saturday (weekday 5).
    let monday = date(2020, 10, 12);
    let saturday = date(2020, 10, 17);
    let config = DateConstraintsBuilder::default().disabled_weekdays(vec![0]).build().unwrap();
    assert!(config.is_day_forbidden(&monday));
    assert!(!config.is_day_forbidden(&saturday));
    let config = DateConstraintsBuilder::default().disabled_weekdays(vec![5]).build().unwrap();
    assert!(config.is_day_forbidden(&saturday));
    assert!(!config.is_day_forbidden(&monday));
}

#[test]
fn is_day_forbidden_disabled_month_not_allowed() {
    let config = DateConstraintsBuilder::default().disabled_months(vec![7]).build().unwrap();
    assert!(config.is_day_forbidden(&date(1, 7, 15)));
    assert!(config.is_day_forbidden(&date(2000, 7, 1)));
    assert!(config.is_day_forbidden(&date(3000, 7, 27)));
    assert!(!config.is_day_forbidden(&date(2000, 8, 1)));
}

#[test]
fn is_day_forbidden_disabled_year_not_allowed() {
    let config = DateConstraintsBuilder::default().disabled_years(vec![2000]).build().unwrap();
    assert!(config.is_day_forbidden(&date(2000, 1, 1)));
    assert!(config.is_day_forbidden(&date(2000, 7, 15)));
    assert!(config.is_day_forbidden(&date(2000, 12, 27)));
    assert!(!config.is_day_forbidden(&date(1999, 12, 31)));
    assert!(!config.is_day_forbidden(&date(2001, 1, 1)));
}

#[test]
fn is_day_forbidden_disabled_unique_dates_not_allowed() {
    let d = date(2020, 1, 16);
    let config = DateConstraintsBuilder::default().disabled_unique_dates(vec![d]).build().unwrap();
    assert!(config.is_day_forbidden(&d))
}

#[test]
fn is_day_forbidden_disabled_unique_dates_after_a_year_allowed() {
    let d = date(2020, 1, 16);
    let config = DateConstraintsBuilder::default().disabled_unique_dates(vec![d]).build().unwrap();
    assert!(!config.is_day_forbidden(&date(2021, 1, 16)))
}

#[test]
fn is_day_forbidden_disabled_yearly_dates_not_allowed() {
    // The year stored with a yearly date is irrelevant: (month, day) is
    // forbidden in every year.
    let config = DateConstraintsBuilder::default()
        .disabled_yearly_dates(vec![date(2000, 7, 15)])
        .build()
        .unwrap();
    assert!(config.is_day_forbidden(&date(1, 7, 15)));
    assert!(config.is_day_forbidden(&date(1500, 7, 15)));
    assert!(config.is_day_forbidden(&date(2000, 7, 15)));
    assert!(!config.is_day_forbidden(&date(2000, 7, 14)));
    assert!(!config.is_day_forbidden(&date(2000, 8, 15)));
}

#[test]
fn is_day_forbidden_disabled_monthly_dates_not_allowed() {
    let config = DateConstraintsBuilder::default()
        .disabled_monthly_dates(vec![15])
        .build()
        .unwrap();
    assert!(config.is_day_forbidden(&date(1, 1, 15)));
    assert!(config.is_day_forbidden(&date(2000, 7, 15)));
    assert!(config.is_day_forbidden(&date(3000, 12, 15)));
    assert!(!config.is_day_forbidden(&date(2000, 7, 16)));
}

#[test]
fn is_day_forbidden_repeated_evaluation_is_stable() {
    let d = date(2020, 10, 15);
    let config = DateConstraintsBuilder::default().min_date(d).build().unwrap();
    let before = date(2020, 10, 14);
    assert_eq!(config.is_day_forbidden(&before), config.is_day_forbidden(&before));
    assert_eq!(config.is_day_forbidden(&d), config.is_day_forbidden(&d));
}

fn through_trait<T: HasDateConstraints>(constraints: &T, d: &Date) -> bool {
    constraints.is_day_forbidden(d)
}

#[test]
fn is_day_forbidden_through_trait() {
    let d = date(2020, 1, 16);
    let config = DateConstraintsBuilder::default().disabled_unique_dates(vec![d]).build().unwrap();
    assert!(through_trait(&config, &d));
    assert!(!through_trait(&config, &date(2021, 1, 16)));
}
