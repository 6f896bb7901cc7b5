//! The constraint data model and the four forbidden-ness predicates.
//!
//! [`DateConstraints`] is an immutable, validated configuration built through
//! [`DateConstraintsBuilder`]. Its mathematical content is a
//! [`ConstraintsModel`] (the view of both the builder and the finished
//! configuration), and every predicate's contract equates its result with a
//! spec-level predicate over that model, so evaluation is a pure function of
//! the configuration and the query.

use crate::date::Date;
use crate::date::YEAR_MAX;
use crate::date::YEAR_MIN;
use crate::date::date_le;
use crate::date::date_lt;
use crate::date::days_in_month;
use crate::date::month_length;
use crate::date::weekday_of;
use vstd::arithmetic::div_mod::lemma_fundamental_div_mod;
use vstd::arithmetic::div_mod::lemma_fundamental_div_mod_converse_div;
use vstd::arithmetic::div_mod::lemma_mod_division_less_than_divisor;
use vstd::prelude::*;

verus! {

/// The mathematical content of a constraint configuration: what the builder
/// has accumulated and what a finished [`DateConstraints`] holds.
#[verifier::ext_equal]
pub struct ConstraintsModel {
    /// Inclusive lower bound on selectable dates.
    pub min_date: Option<Date>,
    /// Inclusive upper bound on selectable dates.
    pub max_date: Option<Date>,
    /// Weekday indices (0 = Monday ... 6 = Sunday) never selectable.
    pub disabled_weekdays: Seq<u8>,
    /// Months of the year (1 to 12) never selectable, in any year.
    pub disabled_months: Seq<u8>,
    /// Years disabled entirely.
    pub disabled_years: Seq<i32>,
    /// Days of the month (1-based) disabled in every month of every year.
    pub disabled_monthly_dates: Seq<u8>,
    /// Dates whose (month, day) is disabled in every year; the stored year
    /// is irrelevant and ignored.
    pub disabled_yearly_dates: Seq<Date>,
    /// Specific full dates disabled one-off.
    pub disabled_unique_dates: Seq<Date>,
}

/// The model with no bounds and every disabled-set empty: the content of a
/// default-constructed configuration, which forbids nothing.
pub open spec fn empty_model() -> ConstraintsModel {
    ConstraintsModel {
        min_date: None,
        max_date: None,
        disabled_weekdays: Seq::empty(),
        disabled_months: Seq::empty(),
        disabled_years: Seq::empty(),
        disabled_monthly_dates: Seq::empty(),
        disabled_yearly_dates: Seq::empty(),
        disabled_unique_dates: Seq::empty(),
    }
}

/// The single cross-field invariant: when both bounds are present, the lower
/// one must not lie after the upper one.
pub open spec fn model_wf(m: ConstraintsModel) -> bool {
    m.min_date is Some && m.max_date is Some ==> date_le(m.min_date->0, m.max_date->0)
}

/// Some stored yearly date matches the given month and day (its year does
/// not matter).
pub open spec fn yearly_match(s: Seq<Date>, month: u8, day: u8) -> bool {
    exists|i: int| 0 <= i < s.len() && s[i].month == month && s[i].day == day
}

/// A day is forbidden when any single rule of the configuration strikes it:
/// it lies before `min_date` or after `max_date`, or its weekday, month,
/// year, day of month, (month, day) pair, or full date is disabled.
pub open spec fn day_forbidden(m: ConstraintsModel, d: Date) -> bool {
    ||| m.min_date is Some && date_lt(d, m.min_date->0)
    ||| m.max_date is Some && date_lt(m.max_date->0, d)
    ||| m.disabled_weekdays.contains(
        weekday_of(d.year as int, d.month as int, d.day as int) as u8,
    )
    ||| m.disabled_months.contains(d.month)
    ||| m.disabled_years.contains(d.year)
    ||| m.disabled_unique_dates.contains(d)
    ||| m.disabled_monthly_dates.contains(d.day)
    ||| yearly_match(m.disabled_yearly_dates, d.month, d.day)
}

/// [`day_forbidden`] with the date given as a (year, month, day) triple;
/// the form the month-level quantifier ranges over.
pub open spec fn day_forbidden_ymd(m: ConstraintsModel, y: i32, mo: u8, d: u8) -> bool {
    day_forbidden(m, Date { year: y, month: mo, day: d })
}

/// A whole month is forbidden when its year is disabled, the month itself is
/// disabled, or every single day in it is forbidden.
pub open spec fn month_forbidden(m: ConstraintsModel, y: i32, mo: u8) -> bool {
    ||| m.disabled_years.contains(y)
    ||| m.disabled_months.contains(mo)
    ||| forall|d: u8|
        1 <= d <= days_in_month(y as int, mo as int) ==> #[trigger] day_forbidden_ymd(m, y, mo, d)
}

/// A whole year is forbidden when the year is disabled or all of its twelve
/// months are forbidden.
pub open spec fn year_forbidden(m: ConstraintsModel, y: i32) -> bool {
    ||| m.disabled_years.contains(y)
    ||| forall|mo: u8| 1 <= mo <= 12 ==> #[trigger] month_forbidden(m, y, mo)
}

/// First year of the 20-year group containing `y`. Groups are disjoint,
/// inclusive intervals aligned to the epoch year 1980: ..., [1960, 1979],
/// [1980, 1999], [2000, 2019], ...
pub open spec fn year_group_start(y: int) -> int {
    1980 + 20 * ((y - 1980) / 20)
}

/// A year group is forbidden when every year of the 20-year group containing
/// `y` is forbidden.
pub open spec fn year_group_forbidden(m: ConstraintsModel, y: i32) -> bool {
    forall|yr: i32|
        year_group_start(y as int) <= yr <= year_group_start(y as int) + 19
            ==> #[trigger] year_forbidden(m, yr)
}

/// Date constraints configuration: immutable once built, validated at
/// construction, and shareable for read-only evaluation.
#[derive(Clone, Debug)]
pub struct DateConstraints {
    /// Inclusive minimal date constraint: the earliest selectable date.
    min_date: Option<Date>,
    /// Inclusive maximal date constraint: the latest selectable date.
    max_date: Option<Date>,
    /// Weekday indices (0 = Monday ... 6 = Sunday) that are never selectable.
    disabled_weekdays: Vec<u8>,
    /// Entire completely disabled months (1 to 12) in every year.
    disabled_months: Vec<u8>,
    /// Entire completely disabled years.
    disabled_years: Vec<i32>,
    /// Disabled monthly periodically repeating dates: day numbers starting
    /// from 1 for the first day of the month.
    disabled_monthly_dates: Vec<u8>,
    /// Disabled yearly periodically repeating dates; only month and day of
    /// each entry matter.
    disabled_yearly_dates: Vec<Date>,
    /// Disabled unique dates with a specific year, month and day.
    disabled_unique_dates: Vec<Date>,
}

impl View for DateConstraints {
    type V = ConstraintsModel;

    closed spec fn view(&self) -> ConstraintsModel {
        ConstraintsModel {
            min_date: self.min_date,
            max_date: self.max_date,
            disabled_weekdays: self.disabled_weekdays@,
            disabled_months: self.disabled_months@,
            disabled_years: self.disabled_years@,
            disabled_monthly_dates: self.disabled_monthly_dates@,
            disabled_yearly_dates: self.disabled_yearly_dates@,
            disabled_unique_dates: self.disabled_unique_dates@,
        }
    }
}

impl Default for DateConstraints {
    /// The empty configuration: no bounds, nothing disabled.
    fn default() -> (r: Self)
        ensures
            r@ == empty_model(),
    {
        let r = DateConstraints {
            min_date: None,
            max_date: None,
            disabled_weekdays: Vec::new(),
            disabled_months: Vec::new(),
            disabled_years: Vec::new(),
            disabled_monthly_dates: Vec::new(),
            disabled_yearly_dates: Vec::new(),
            disabled_unique_dates: Vec::new(),
        };
        proof {
            assert(r@ =~= empty_model());
        }
        r
    }
}

fn contains_u8(v: &Vec<u8>, x: u8) -> (r: bool)
    ensures
        r == v@.contains(x),
{
    let mut i: usize = 0;
    while i < v.len()
        invariant
            i <= v.len(),
            forall|j: int| 0 <= j < i ==> v@[j] != x,
        decreases v.len() - i,
    {
        if v[i] == x {
            return true;
        }
        i += 1;
    }
    false
}

fn contains_i32(v: &Vec<i32>, x: i32) -> (r: bool)
    ensures
        r == v@.contains(x),
{
    let mut i: usize = 0;
    while i < v.len()
        invariant
            i <= v.len(),
            forall|j: int| 0 <= j < i ==> v@[j] != x,
        decreases v.len() - i,
    {
        if v[i] == x {
            return true;
        }
        i += 1;
    }
    false
}

fn contains_date(v: &Vec<Date>, x: &Date) -> (r: bool)
    ensures
        r == v@.contains(*x),
{
    let mut i: usize = 0;
    while i < v.len()
        invariant
            i <= v.len(),
            forall|j: int| 0 <= j < i ==> v@[j] != *x,
        decreases v.len() - i,
    {
        if v[i] == *x {
            return true;
        }
        i += 1;
    }
    false
}

fn contains_yearly(v: &Vec<Date>, month: u8, day: u8) -> (r: bool)
    ensures
        r == yearly_match(v@, month, day),
{
    let mut i: usize = 0;
    while i < v.len()
        invariant
            i <= v.len(),
            forall|j: int| 0 <= j < i ==> !(v@[j].month == month && v@[j].day == day),
        decreases v.len() - i,
    {
        if v[i].month == month && v[i].day == day {
            return true;
        }
        i += 1;
    }
    false
}

impl DateConstraints {
    /// Returns true if the given date is forbidden.
    pub fn is_day_forbidden(&self, date: &Date) -> (r: bool)
        requires
            date.wf(),
        ensures
            r == day_forbidden(self@, *date),
    {
        if let Some(min_date) = self.min_date {
            if date.lt(&min_date) {
                return true;
            }
        }
        if let Some(max_date) = self.max_date {
            if max_date.lt(date) {
                return true;
            }
        }
        let w = date.weekday();
        proof {
            assert(w as u8 == weekday_of(date.year as int, date.month as int, date.day as int)
                as u8);
        }
        contains_u8(&self.disabled_weekdays, w) || contains_u8(&self.disabled_months, date.month)
            || contains_i32(&self.disabled_years, date.year) || contains_date(
            &self.disabled_unique_dates,
            date,
        ) || contains_u8(&self.disabled_monthly_dates, date.day) || contains_yearly(
            &self.disabled_yearly_dates,
            date.month,
            date.day,
        )
    }

    /// Returns true if the entire month described by `year_month_info` is
    /// forbidden. Only the year and month of the argument matter; its day
    /// component is ignored.
    pub fn is_month_forbidden(&self, year_month_info: &Date) -> (r: bool)
        requires
            year_month_info.wf(),
        ensures
            r == month_forbidden(self@, year_month_info.year, year_month_info.month),
    {
        let y = year_month_info.year;
        let mo = year_month_info.month;
        if contains_i32(&self.disabled_years, y) {
            return true;
        }
        if contains_u8(&self.disabled_months, mo) {
            return true;
        }
        let len = month_length(y, mo);
        let mut d: u8 = 1;
        while d <= len
            invariant
                1 <= d <= len + 1,
                len as int == days_in_month(y as int, mo as int),
                y == year_month_info.year,
                mo == year_month_info.month,
                YEAR_MIN <= y <= YEAR_MAX,
                1 <= mo <= 12,
                !self@.disabled_years.contains(y),
                !self@.disabled_months.contains(mo),
                forall|k: u8| 1 <= k < d ==> #[trigger] day_forbidden_ymd(self@, y, mo, k),
            decreases len + 1 - d,
        {
            let current = Date { year: y, month: mo, day: d };
            if !self.is_day_forbidden(&current) {
                proof {
                    assert(!day_forbidden_ymd(self@, y, mo, d));
                }
                return false;
            }
            d += 1;
        }
        true
    }

    /// Returns true if the entire given year is forbidden.
    pub fn is_year_forbidden(&self, year: i32) -> (r: bool)
        requires
            YEAR_MIN <= year <= YEAR_MAX,
        ensures
            r == year_forbidden(self@, year),
    {
        if contains_i32(&self.disabled_years, year) {
            return true;
        }
        let mut mo: u8 = 1;
        while mo <= 12
            invariant
                1 <= mo <= 13,
                YEAR_MIN <= year <= YEAR_MAX,
                !self@.disabled_years.contains(year),
                forall|k: u8| 1 <= k < mo ==> #[trigger] month_forbidden(self@, year, k),
            decreases 13 - mo,
        {
            let first = Date { year, month: mo, day: 1 };
            if !self.is_month_forbidden(&first) {
                return false;
            }
            mo += 1;
        }
        true
    }

    /// Returns true if the entire group of years including the given year is
    /// forbidden. A group of years are the inclusive 20-year intervals
    /// ..., [1960, 1979], [1980, 1999], [2000, 2019], ...
    pub fn is_year_group_forbidden(&self, year: i32) -> (r: bool)
        requires
            YEAR_MIN + 20 <= year <= YEAR_MAX - 20,
        ensures
            r == year_group_forbidden(self@, year),
    {
        let start = group_start(year);
        let mut i: u8 = 0;
        while i < 20
            invariant
                i <= 20,
                start as int == year_group_start(year as int),
                start <= year <= start + 19,
                YEAR_MIN + 20 <= year <= YEAR_MAX - 20,
                forall|yr: i32|
                    start <= yr < start + i ==> #[trigger] year_forbidden(self@, yr),
            decreases 20 - i,
        {
            let yr = start + i as i32;
            if !self.is_year_forbidden(yr) {
                return false;
            }
            i += 1;
        }
        true
    }
}

/// The single construction failure: the configured range is invalid because
/// `min_date` lies after `max_date`. Carries a human-readable message.
#[derive(Clone, Debug)]
pub enum DateConstraintsBuilderError {
    /// `min_date` and `max_date` were both set with `min_date > max_date`.
    InvalidRange { message: String },
}

impl DateConstraintsBuilderError {
    /// The human-readable description of the validation failure.
    pub fn message(&self) -> (s: &str)
        ensures
            match self {
                DateConstraintsBuilderError::InvalidRange { message } => s@ == message@,
            },
    {
        match self {
            DateConstraintsBuilderError::InvalidRange { message } => message.as_str(),
        }
    }
}

/// The message carried by the `InvalidRange` construction error.
pub open spec fn invalid_range_message() -> Seq<char> {
    "min_date must be earlier or exactly at max_date"@
}

/// Fallible builder for [`DateConstraints`]: each field can be set
/// independently (all optional, defaulting to unset or empty), and
/// [`DateConstraintsBuilder::build`] validates before producing the
/// configuration.
#[derive(Clone, Debug)]
pub struct DateConstraintsBuilder {
    min_date: Option<Date>,
    max_date: Option<Date>,
    disabled_weekdays: Vec<u8>,
    disabled_months: Vec<u8>,
    disabled_years: Vec<i32>,
    disabled_monthly_dates: Vec<u8>,
    disabled_yearly_dates: Vec<Date>,
    disabled_unique_dates: Vec<Date>,
}

impl View for DateConstraintsBuilder {
    type V = ConstraintsModel;

    closed spec fn view(&self) -> ConstraintsModel {
        ConstraintsModel {
            min_date: self.min_date,
            max_date: self.max_date,
            disabled_weekdays: self.disabled_weekdays@,
            disabled_months: self.disabled_months@,
            disabled_years: self.disabled_years@,
            disabled_monthly_dates: self.disabled_monthly_dates@,
            disabled_yearly_dates: self.disabled_yearly_dates@,
            disabled_unique_dates: self.disabled_unique_dates@,
        }
    }
}

impl Default for DateConstraintsBuilder {
    /// A builder with every field unset.
    fn default() -> (r: Self)
        ensures
            r@ == empty_model(),
    {
        let r = DateConstraintsBuilder {
            min_date: None,
            max_date: None,
            disabled_weekdays: Vec::new(),
            disabled_months: Vec::new(),
            disabled_years: Vec::new(),
            disabled_monthly_dates: Vec::new(),
            disabled_yearly_dates: Vec::new(),
            disabled_unique_dates: Vec::new(),
        };
        proof {
            assert(r@ =~= empty_model());
        }
        r
    }
}

impl DateConstraintsBuilder {
    /// Sets the inclusive minimal date constraint.
    pub fn min_date(self, value: Date) -> (r: Self)
        ensures
            r@ == (ConstraintsModel { min_date: Some(value), ..self@ }),
    {
        let r = DateConstraintsBuilder { min_date: Some(value), ..self };
        proof {
            assert(r@ =~= (ConstraintsModel { min_date: Some(value), ..self@ }));
        }
        r
    }

    /// Sets the inclusive maximal date constraint.
    pub fn max_date(self, value: Date) -> (r: Self)
        ensures
            r@ == (ConstraintsModel { max_date: Some(value), ..self@ }),
    {
        let r = DateConstraintsBuilder { max_date: Some(value), ..self };
        proof {
            assert(r@ =~= (ConstraintsModel { max_date: Some(value), ..self@ }));
        }
        r
    }

    /// Sets the weekdays (0 = Monday ... 6 = Sunday) that are never
    /// selectable.
    pub fn disabled_weekdays(self, value: Vec<u8>) -> (r: Self)
        ensures
            r@ == (ConstraintsModel { disabled_weekdays: value@, ..self@ }),
    {
        let r = DateConstraintsBuilder { disabled_weekdays: value, ..self };
        proof {
            assert(r@ =~= (ConstraintsModel { disabled_weekdays: r.disabled_weekdays@, ..self@ }));
        }
        r
    }

    /// Sets the months (1 to 12) disabled in every year.
    pub fn disabled_months(self, value: Vec<u8>) -> (r: Self)
        ensures
            r@ == (ConstraintsModel { disabled_months: value@, ..self@ }),
    {
        let r = DateConstraintsBuilder { disabled_months: value, ..self };
        proof {
            assert(r@ =~= (ConstraintsModel { disabled_months: r.disabled_months@, ..self@ }));
        }
        r
    }

    /// Sets the years that are entirely disabled.
    pub fn disabled_years(self, value: Vec<i32>) -> (r: Self)
        ensures
            r@ == (ConstraintsModel { disabled_years: value@, ..self@ }),
    {
        let r = DateConstraintsBuilder { disabled_years: value, ..self };
        proof {
            assert(r@ =~= (ConstraintsModel { disabled_years: r.disabled_years@, ..self@ }));
        }
        r
    }

    /// Sets the day numbers disabled in every month of every year.
    pub fn disabled_monthly_dates(self, value: Vec<u8>) -> (r: Self)
        ensures
            r@ == (ConstraintsModel { disabled_monthly_dates: value@, ..self@ }),
    {
        let r = DateConstraintsBuilder { disabled_monthly_dates: value, ..self };
        proof {
            assert(r@ =~= (ConstraintsModel {
                disabled_monthly_dates: r.disabled_monthly_dates@,
                ..self@
            }));
        }
        r
    }

    /// Sets the yearly repeating disabled dates; only the month and day of
    /// each entry matter.
    pub fn disabled_yearly_dates(self, value: Vec<Date>) -> (r: Self)
        ensures
            r@ == (ConstraintsModel { disabled_yearly_dates: value@, ..self@ }),
    {
        let r = DateConstraintsBuilder { disabled_yearly_dates: value, ..self };
        proof {
            assert(r@ =~= (ConstraintsModel {
                disabled_yearly_dates: r.disabled_yearly_dates@,
                ..self@
            }));
        }
        r
    }

    /// Sets the one-off disabled dates.
    pub fn disabled_unique_dates(self, value: Vec<Date>) -> (r: Self)
        ensures
            r@ == (ConstraintsModel { disabled_unique_dates: value@, ..self@ }),
    {
        let r = DateConstraintsBuilder { disabled_unique_dates: value, ..self };
        proof {
            assert(r@ =~= (ConstraintsModel {
                disabled_unique_dates: r.disabled_unique_dates@,
                ..self@
            }));
        }
        r
    }

    /// Validates the accumulated fields and produces the immutable
    /// configuration. Construction fails exactly when both bounds are set
    /// and `min_date` lies after `max_date`.
    pub fn build(self) -> (r: Result<DateConstraints, DateConstraintsBuilderError>)
        ensures
            r is Ok <==> model_wf(self@),
            match r {
                Ok(c) => c@ == self@,
                Err(e) => !model_wf(self@) && match e {
                    DateConstraintsBuilderError::InvalidRange { message } => message@
                        == invalid_range_message(),
                },
            },
    {
        let valid = match (&self.min_date, &self.max_date) {
            (Some(min_date), Some(max_date)) => min_date.le(max_date),
            _ => true,
        };
        if !valid {
            return Err(
                DateConstraintsBuilderError::InvalidRange {
                    message: "min_date must be earlier or exactly at max_date".to_owned(),
                },
            );
        }
        Ok(
            DateConstraints {
                min_date: self.min_date,
                max_date: self.max_date,
                disabled_weekdays: self.disabled_weekdays,
                disabled_months: self.disabled_months,
                disabled_years: self.disabled_years,
                disabled_monthly_dates: self.disabled_monthly_dates,
                disabled_yearly_dates: self.disabled_yearly_dates,
                disabled_unique_dates: self.disabled_unique_dates,
            },
        )
    }
}

/// Capability of answering forbidden-ness queries; implement it to supply
/// custom date constraints. [`DateConstraints`] is the standard
/// implementation.
pub trait HasDateConstraints {
    /// Returns true if the given date is forbidden.
    fn is_day_forbidden(&self, date: &Date) -> bool
        requires
            date.wf(),
    ;

    /// Returns true if the entire month described by `year_month_info` is
    /// forbidden.
    fn is_month_forbidden(&self, year_month_info: &Date) -> bool
        requires
            year_month_info.wf(),
    ;

    /// Returns true if the entire given year is forbidden.
    fn is_year_forbidden(&self, year: i32) -> bool
        requires
            YEAR_MIN <= year <= YEAR_MAX,
    ;

    /// Returns true if the entire group of years including the given year is
    /// forbidden. A group of years are the inclusive 20-year intervals
    /// ..., [1960, 1979], [1980, 1999], [2000, 2019], ...
    fn is_year_group_forbidden(&self, year: i32) -> bool
        requires
            YEAR_MIN + 20 <= year <= YEAR_MAX - 20,
    ;
}

impl HasDateConstraints for DateConstraints {
    fn is_day_forbidden(&self, date: &Date) -> bool {
        DateConstraints::is_day_forbidden(self, date)
    }

    fn is_month_forbidden(&self, year_month_info: &Date) -> bool {
        DateConstraints::is_month_forbidden(self, year_month_info)
    }

    fn is_year_forbidden(&self, year: i32) -> bool {
        DateConstraints::is_year_forbidden(self, year)
    }

    fn is_year_group_forbidden(&self, year: i32) -> bool {
        DateConstraints::is_year_group_forbidden(self, year)
    }
}

/// A multiple of the 20-year group length large enough that adding it to
/// any supported year gives a value at or after the epoch year 1980, which
/// lets executable code do its division on unsigned values.
const GROUP_SHIFT: i64 = 264000;

/// First year of the 20-year group containing `year`.
fn group_start(year: i32) -> (s: i32)
    requires
        YEAR_MIN <= year <= YEAR_MAX,
    ensures
        s as int == year_group_start(year as int),
        s <= year <= s + 19,
{
    let shifted: u64 = (year as i64 - 1980 + GROUP_SHIFT) as u64;
    let q: u64 = shifted / 20;
    let s: i64 = (q as i64) * 20 + 1980 - GROUP_SHIFT;
    proof {
        let ye = year - 1980;
        lemma_fundamental_div_mod(ye, 20);
        lemma_mod_division_less_than_divisor(ye, 20);
        lemma_fundamental_div_mod_converse_div(
            shifted as int,
            20,
            ye / 20 + 13200,
            ye % 20,
        );
        assert(s as int == year_group_start(year as int));
    }
    s as i32
}

} // verus!
