//! The general laws of the rule engine, stated and proved once and for all:
//! an empty configuration forbids nothing, the bounds are inclusive, each
//! disabling rule strikes exactly what it names, year groups behave as
//! 20-year intervals, and evaluation is deterministic.

use crate::constraints::ConstraintsModel;
use crate::constraints::day_forbidden;
use crate::constraints::day_forbidden_ymd;
use crate::constraints::empty_model;
use crate::constraints::month_forbidden;
use crate::constraints::year_forbidden;
use crate::constraints::year_group_forbidden;
use crate::constraints::year_group_start;
use crate::constraints::yearly_match;
use crate::date::Date;
use crate::date::YEAR_MAX;
use crate::date::YEAR_MIN;
use crate::date::date_lt;
use crate::date::next_day;
use crate::date::prev_day;
use crate::date::weekday_of;
use vstd::arithmetic::div_mod::lemma_fundamental_div_mod;
use vstd::arithmetic::div_mod::lemma_fundamental_div_mod_converse_div;
use vstd::arithmetic::div_mod::lemma_mod_division_less_than_divisor;
use vstd::prelude::*;

verus! {

/// No constraints means nothing is forbidden: under the empty configuration
/// every day, month, year and year group is allowed.
pub proof fn lemma_empty_forbids_nothing(m: ConstraintsModel, d: Date, y: i32, mo: u8)
    requires
        m == empty_model(),
    ensures
        !day_forbidden(m, d),
        !month_forbidden(m, y, mo),
        !year_forbidden(m, y),
        !year_group_forbidden(m, y),
{
    assert(!day_forbidden_ymd(m, y, mo, 1));
    assert(!month_forbidden(m, y, mo));
    assert(!day_forbidden_ymd(m, y, 1, 1));
    assert(!month_forbidden(m, y, 1));
    assert(!year_forbidden(m, y));
    lemma_year_in_own_group(y as int);
}

/// Every year lies inside its own 20-year group.
pub proof fn lemma_year_in_own_group(y: int)
    ensures
        year_group_start(y) <= y <= year_group_start(y) + 19,
{
    lemma_fundamental_div_mod(y - 1980, 20);
    lemma_mod_division_less_than_divisor(y - 1980, 20);
}

/// Year groups are disjoint intervals: every member of the group containing
/// `y` determines the same group.
pub proof fn lemma_group_member_same_start(y: int, yr: int)
    requires
        year_group_start(y) <= yr <= year_group_start(y) + 19,
    ensures
        year_group_start(yr) == year_group_start(y),
{
    lemma_fundamental_div_mod(y - 1980, 20);
    lemma_mod_division_less_than_divisor(y - 1980, 20);
    let q = (y - 1980) / 20;
    lemma_fundamental_div_mod_converse_div(yr - 1980, 20, q, yr - 1980 - 20 * q);
}

/// The lower bound is inclusive: with `min_date` set to `d` and no other
/// constraint, `d` itself is allowed and the day before it is forbidden.
pub proof fn lemma_min_date_boundary(m: ConstraintsModel, d: Date)
    requires
        m == (ConstraintsModel { min_date: Some(d), ..empty_model() }),
        d.wf(),
    ensures
        !day_forbidden(m, d),
        day_forbidden(m, prev_day(d)),
{
    assert(date_lt(prev_day(d), d));
}

/// The upper bound is inclusive: with `max_date` set to `d` and no other
/// constraint, `d` itself is allowed and the day after it is forbidden.
pub proof fn lemma_max_date_boundary(m: ConstraintsModel, d: Date)
    requires
        m == (ConstraintsModel { max_date: Some(d), ..empty_model() }),
        d.wf(),
    ensures
        !day_forbidden(m, d),
        day_forbidden(m, next_day(d)),
{
    assert(date_lt(d, next_day(d)));
}

/// Stepping to the previous day stays within the calendar: for a
/// well-formed date other than the very first supported one, the previous
/// day is well-formed and strictly earlier.
pub proof fn lemma_prev_day_wf(d: Date)
    requires
        d.wf(),
        !(d.year == YEAR_MIN && d.month == 1 && d.day == 1),
    ensures
        prev_day(d).wf(),
        date_lt(prev_day(d), d),
{
}

/// Stepping to the next day stays within the calendar: for a well-formed
/// date other than the very last supported one, the next day is well-formed
/// and strictly later.
pub proof fn lemma_next_day_wf(d: Date)
    requires
        d.wf(),
        !(d.year == YEAR_MAX && d.month == 12 && d.day == 31),
    ensures
        next_day(d).wf(),
        date_lt(d, next_day(d)),
{
}

/// Disabling a weekday strikes every date falling on it: any date whose
/// weekday is among the disabled weekdays is forbidden, whatever else the
/// configuration holds.
pub proof fn lemma_disabled_weekday_forbids(m: ConstraintsModel, d: Date, w: u8)
    requires
        w as int == weekday_of(d.year as int, d.month as int, d.day as int),
        m.disabled_weekdays.contains(w),
    ensures
        day_forbidden(m, d),
{
}

/// A single one-off disabled date forbids exactly that date: under a
/// configuration whose only rule is `disabled_unique_dates = {u}`, a day is
/// forbidden if and only if it equals `u`.
pub proof fn lemma_unique_date_exact(m: ConstraintsModel, u: Date, d: Date)
    requires
        m == (ConstraintsModel { disabled_unique_dates: seq![u], ..empty_model() }),
    ensures
        day_forbidden(m, d) <==> d == u,
{
    assert(m.disabled_unique_dates[0] == u);
}

/// A yearly disabled date strikes its month and day in every year: if some
/// entry of `disabled_yearly_dates` carries the month and day of `d`, then
/// `d` is forbidden, whatever year `d` or the entry carries.
pub proof fn lemma_yearly_date_forbids_every_year(m: ConstraintsModel, i: int, d: Date)
    requires
        0 <= i < m.disabled_yearly_dates.len(),
        m.disabled_yearly_dates[i].month == d.month,
        m.disabled_yearly_dates[i].day == d.day,
    ensures
        day_forbidden(m, d),
{
    assert(yearly_match(m.disabled_yearly_dates, d.month, d.day));
}

/// Disabling all 20 years of a year group forbids the group: if every year
/// of the group containing `y` is in `disabled_years`, the group is
/// forbidden.
pub proof fn lemma_group_disabled_years(m: ConstraintsModel, y: i32)
    requires
        forall|yr: i32|
            year_group_start(y as int) <= yr <= year_group_start(y as int) + 19
                ==> #[trigger] m.disabled_years.contains(yr),
    ensures
        year_group_forbidden(m, y),
{
    assert forall|yr: i32|
        year_group_start(y as int) <= yr <= year_group_start(y as int) + 19 implies #[trigger]
    year_forbidden(m, yr) by {
        assert(m.disabled_years.contains(yr));
    }
}

/// Evaluation is deterministic: any two results certified against the same
/// configuration model and the same query are equal. Each `is_*_forbidden`
/// method's contract equates its result with a spec predicate of the
/// configuration's view and the query alone, so repeated evaluation always
/// yields the same answer; the day predicate shown here is the root the
/// other three are defined from.
pub proof fn lemma_evaluation_deterministic(m: ConstraintsModel, d: Date, r1: bool, r2: bool)
    requires
        r1 == day_forbidden(m, d),
        r2 == day_forbidden(m, d),
    ensures
        r1 == r2,
{
}

} // verus!
