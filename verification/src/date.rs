//! Naive (timezone-less) proleptic-Gregorian calendar dates.
//!
//! A [`Date`] is a plain `(year, month, day)` triple. Well-formedness
//! ([`Date::wf`]) restricts it to real calendar dates within the supported
//! year range. The module also provides the small amount of calendar
//! arithmetic the rule engine needs: leap years, month lengths, weekday
//! computation, and chronological comparison.

use vstd::arithmetic::div_mod::lemma_fundamental_div_mod;
use vstd::arithmetic::div_mod::lemma_fundamental_div_mod_converse_div;
use vstd::arithmetic::div_mod::lemma_mod_division_less_than_divisor;
use vstd::arithmetic::div_mod::lemma_mod_multiples_vanish;
use vstd::prelude::*;

verus! {

/// Smallest year a well-formed [`Date`] may carry.
pub const YEAR_MIN: i32 = -262000;

/// Largest year a well-formed [`Date`] may carry.
pub const YEAR_MAX: i32 = 262000;

/// Adding this many years to any supported year yields a positive number,
/// which lets executable code do all division on unsigned values. It is a
/// multiple of 400, so the shift changes neither leap-year status nor
/// weekdays (the Gregorian calendar repeats every 400 years).
pub const YEAR_SHIFT: i64 = 262400;

/// A naive calendar date: a year, a month (1 to 12) and a day of month
/// (1-based). The proleptic Gregorian calendar extends indefinitely in both
/// directions; the supported year range is `[YEAR_MIN, YEAR_MAX]`.
#[derive(Clone, Copy, Debug, PartialEq, Eq, Structural)]
pub struct Date {
    pub year: i32,
    pub month: u8,
    pub day: u8,
}

/// A leap year in the proleptic Gregorian calendar: divisible by 4 but not
/// by 100, or divisible by 400.
pub open spec fn is_leap_year(y: int) -> bool {
    (y % 4 == 0 && y % 100 != 0) || y % 400 == 0
}

/// Number of days in month `m` (1 to 12) of year `y`.
pub open spec fn days_in_month(y: int, m: int) -> int {
    if m == 2 {
        if is_leap_year(y) {
            29
        } else {
            28
        }
    } else if m == 4 || m == 6 || m == 9 || m == 11 {
        30
    } else {
        31
    }
}

/// Per-month key of Sakamoto's weekday formula.
pub open spec fn month_key(m: int) -> int {
    if m == 1 {
        0
    } else if m == 2 {
        3
    } else if m == 3 {
        2
    } else if m == 4 {
        5
    } else if m == 5 {
        0
    } else if m == 6 {
        3
    } else if m == 7 {
        5
    } else if m == 8 {
        1
    } else if m == 9 {
        4
    } else if m == 10 {
        6
    } else if m == 11 {
        2
    } else {
        4
    }
}

/// The linear part of Sakamoto's weekday formula, before reduction modulo 7.
/// `yy` is the year, already decremented for January and February.
pub open spec fn weekday_sum(yy: int, m: int, d: int) -> int {
    yy + yy / 4 - yy / 100 + yy / 400 + month_key(m) + d + 6
}

/// Weekday of a proleptic-Gregorian date, as an index with 0 = Monday,
/// 1 = Tuesday, ..., 6 = Sunday (Sakamoto's formula, rotated so that the
/// week starts on Monday).
pub open spec fn weekday_of(y: int, m: int, d: int) -> int {
    weekday_sum(if m < 3 { y - 1 } else { y }, m, d) % 7
}

/// Shifting a year by 400 leaves its weekday unchanged: the shift adds
/// 400 + 100 - 4 + 1 = 497 = 7 * 71 to the weekday sum.
proof fn lemma_weekday_sum_shift_400(yy: int, m: int, d: int)
    ensures
        weekday_sum(yy + 400, m, d) % 7 == weekday_sum(yy, m, d) % 7,
{
    lemma_fundamental_div_mod(yy, 4);
    lemma_mod_division_less_than_divisor(yy, 4);
    lemma_fundamental_div_mod_converse_div(yy + 400, 4, yy / 4 + 100, yy % 4);
    lemma_fundamental_div_mod(yy, 100);
    lemma_mod_division_less_than_divisor(yy, 100);
    lemma_fundamental_div_mod_converse_div(yy + 400, 100, yy / 100 + 4, yy % 100);
    lemma_fundamental_div_mod(yy, 400);
    lemma_mod_division_less_than_divisor(yy, 400);
    lemma_fundamental_div_mod_converse_div(yy + 400, 400, yy / 400 + 1, yy % 400);
    assert(weekday_sum(yy + 400, m, d) == weekday_sum(yy, m, d) + 497);
    lemma_mod_multiples_vanish(71, weekday_sum(yy, m, d), 7);
}

/// Shifting a year by any multiple of 400 leaves its weekday unchanged.
proof fn lemma_weekday_sum_shift(yy: int, m: int, d: int, k: nat)
    ensures
        weekday_sum(yy + 400 * k, m, d) % 7 == weekday_sum(yy, m, d) % 7,
    decreases k,
{
    if k > 0 {
        lemma_weekday_sum_shift(yy, m, d, (k - 1) as nat);
        lemma_weekday_sum_shift_400(yy + 400 * (k - 1), m, d);
        assert(yy + 400 * (k - 1) + 400 == yy + 400 * k) by (nonlinear_arith);
    }
}

/// Strict chronological order on dates; for well-formed dates this is the
/// usual "earlier than" relation.
pub open spec fn date_lt(a: Date, b: Date) -> bool {
    ||| a.year < b.year
    ||| (a.year == b.year && a.month < b.month)
    ||| (a.year == b.year && a.month == b.month && a.day < b.day)
}

/// Non-strict chronological order on dates.
pub open spec fn date_le(a: Date, b: Date) -> bool {
    a == b || date_lt(a, b)
}

/// The calendar day immediately before `d` (for a well-formed `d`).
pub open spec fn prev_day(d: Date) -> Date {
    if d.day > 1 {
        Date { day: (d.day - 1) as u8, ..d }
    } else if d.month > 1 {
        Date {
            month: (d.month - 1) as u8,
            day: days_in_month(d.year as int, d.month - 1) as u8,
            ..d
        }
    } else {
        Date { year: (d.year - 1) as i32, month: 12, day: 31 }
    }
}

/// The calendar day immediately after `d` (for a well-formed `d`).
pub open spec fn next_day(d: Date) -> Date {
    if d.day < days_in_month(d.year as int, d.month as int) {
        Date { day: (d.day + 1) as u8, ..d }
    } else if d.month < 12 {
        Date { month: (d.month + 1) as u8, day: 1, ..d }
    } else {
        Date { year: (d.year + 1) as i32, month: 1, day: 1 }
    }
}

impl Date {
    /// A well-formed date lies in the supported year range and names a real
    /// calendar day of its month.
    pub open spec fn wf(self) -> bool {
        &&& YEAR_MIN <= self.year <= YEAR_MAX
        &&& 1 <= self.month <= 12
        &&& 1 <= self.day <= days_in_month(self.year as int, self.month as int)
    }

    /// Builds a date, returning `None` exactly when the triple does not name
    /// a well-formed calendar date.
    pub fn new(year: i32, month: u8, day: u8) -> (r: Option<Date>)
        ensures
            r is Some <==> (Date { year, month, day }).wf(),
            r is Some ==> r->0 == (Date { year, month, day }),
    {
        if year < YEAR_MIN || year > YEAR_MAX {
            return None;
        }
        if month < 1 || month > 12 {
            return None;
        }
        let len = month_length(year, month);
        if day < 1 || day > len {
            return None;
        }
        Some(Date { year, month, day })
    }

    /// Weekday of this date, with 0 = Monday through 6 = Sunday.
    pub fn weekday(&self) -> (w: u8)
        requires
            self.wf(),
        ensures
            w as int == weekday_of(self.year as int, self.month as int, self.day as int),
            w < 7,
    {
        let shifted: u64 = (self.year as i64 + YEAR_SHIFT) as u64;
        let yy: u64 = if self.month < 3 {
            shifted - 1
        } else {
            shifted
        };
        let key: u64 = month_key_of(self.month) as u64;
        proof {
            vstd::arithmetic::div_mod::lemma_div_nonincreasing(yy as int, 100);
            vstd::arithmetic::div_mod::lemma_div_pos_is_pos(yy as int, 4);
            vstd::arithmetic::div_mod::lemma_div_pos_is_pos(yy as int, 400);
        }
        let sum: u64 = yy + yy / 4 - yy / 100 + yy / 400 + key + (self.day as u64) + 6;
        let w: u64 = sum % 7;
        proof {
            let ys = if self.month < 3 {
                self.year - 1
            } else {
                self.year as int
            };
            assert(yy as int == ys + 400 * 656);
            assert(sum as int == weekday_sum(yy as int, self.month as int, self.day as int));
            lemma_weekday_sum_shift(ys, self.month as int, self.day as int, 656);
            lemma_mod_division_less_than_divisor(
                weekday_sum(yy as int, self.month as int, self.day as int),
                7,
            );
        }
        w as u8
    }

    /// Chronological strict comparison.
    pub fn lt(&self, other: &Date) -> (r: bool)
        ensures
            r == date_lt(*self, *other),
    {
        self.year < other.year || (self.year == other.year && (self.month < other.month || (
        self.month == other.month && self.day < other.day)))
    }

    /// Chronological non-strict comparison.
    pub fn le(&self, other: &Date) -> (r: bool)
        ensures
            r == date_le(*self, *other),
    {
        self.lt(other) || (self.year == other.year && self.month == other.month && self.day
            == other.day)
    }
}

/// Whether `year` is a leap year.
pub fn leap_year(year: i32) -> (r: bool)
    requires
        YEAR_MIN <= year <= YEAR_MAX,
    ensures
        r == is_leap_year(year as int),
{
    let shifted: u64 = (year as i64 + YEAR_SHIFT) as u64;
    proof {
        lemma_mod_multiples_vanish(65600, year as int, 4);
        lemma_mod_multiples_vanish(2624, year as int, 100);
        lemma_mod_multiples_vanish(656, year as int, 400);
    }
    (shifted % 4 == 0 && shifted % 100 != 0) || shifted % 400 == 0
}

/// Per-month key of Sakamoto's weekday formula.
fn month_key_of(month: u8) -> (k: u8)
    ensures
        k as int == month_key(month as int),
        k <= 6,
{
    match month {
        1 => 0,
        2 => 3,
        3 => 2,
        4 => 5,
        5 => 0,
        6 => 3,
        7 => 5,
        8 => 1,
        9 => 4,
        10 => 6,
        11 => 2,
        _ => 4,
    }
}

/// Number of days in month `month` of year `year`.
pub fn month_length(year: i32, month: u8) -> (r: u8)
    requires
        YEAR_MIN <= year <= YEAR_MAX,
    ensures
        r as int == days_in_month(year as int, month as int),
        28 <= r <= 31,
{
    if month == 2 {
        if leap_year(year) {
            29
        } else {
            28
        }
    } else if month == 4 || month == 6 || month == 9 || month == 11 {
        30
    } else {
        31
    }
}

} // verus!
