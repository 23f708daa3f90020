//! Facts about day numbers and instants that the laws of the library rest on.

use vstd::prelude::*;
use vstd::arithmetic::div_mod::{
    lemma_div_is_ordered, lemma_fundamental_div_mod, lemma_fundamental_div_mod_converse,
    lemma_mod_mod,
};
use crate::calendar::{
    day_number, days_before_month, days_before_year, days_in_month, days_in_year, first_day,
    in_date_range, instant, last_day, second_of_day, seconds_shift_in_range,
    shift_days, shift_seconds, CivilDate, CivilDateTime, MAX_YEAR, MIN_YEAR,
};

verus! {

/// `y / k` grows by one exactly when `k` divides `y`.
pub proof fn lemma_div_step(y: int, k: int)
    requires
        k > 0,
    ensures
        y / k - (y - 1) / k == if y % k == 0 { 1int } else { 0int },
{
    lemma_fundamental_div_mod(y, k);
    let q = y / k;
    let r = y % k;
    assert(0 <= r < k) by { vstd::arithmetic::div_mod::lemma_mod_bound(y, k); }
    assert(y == q * k + r) by (nonlinear_arith)
        requires y == k * (y / k) + (y % k), q == y / k, r == y % k;
    if r > 0 {
        lemma_fundamental_div_mod_converse(y - 1, k, q, r - 1);
    } else {
        assert(y - 1 == (q - 1) * k + (k - 1)) by (nonlinear_arith)
            requires y == q * k + r, r == 0;
        lemma_fundamental_div_mod_converse(y - 1, k, q - 1, k - 1);
    }
}

/// Multiples of 400 are multiples of 100, and those of 100 are multiples of 4.
pub proof fn lemma_divisibility(y: int)
    ensures
        y % 400 == 0 ==> y % 100 == 0,
        y % 100 == 0 ==> y % 4 == 0,
{
    lemma_mod_mod(y, 100, 4);
    lemma_mod_mod(y, 4, 25);
}

/// Consecutive years are `days_in_year` apart.
pub proof fn lemma_year_step(y: int)
    ensures
        days_before_year(y + 1) == days_before_year(y) + days_in_year(y),
{
    lemma_div_step(y, 4);
    lemma_div_step(y, 100);
    lemma_div_step(y, 400);
    lemma_divisibility(y);
}

/// A later year starts after the whole of an earlier one.
pub proof fn lemma_year_order(y1: int, y2: int)
    requires
        y1 < y2,
    ensures
        days_before_year(y2) >= days_before_year(y1) + days_in_year(y1),
    decreases y2 - y1,
{
    lemma_year_step(y1);
    if y2 > y1 + 1 {
        lemma_year_order(y1 + 1, y2);
    }
}

/// A date's number lies within its year.
pub proof fn lemma_within_year(d: CivilDate)
    requires
        d.wf(),
    ensures
        days_before_year(d.year as int) < day_number(d) <= days_before_year(d.year as int) + days_in_year(d.year as int),
{
}

/// A later month of the same year starts after the whole of an earlier one.
pub proof fn lemma_month_order(y: int, m1: int, m2: int)
    requires
        1 <= m1 < m2 <= 12,
    ensures
        days_before_month(y, m1) + days_in_month(y, m1) <= days_before_month(y, m2),
{
}

/// Distinct valid dates have distinct day numbers.
pub proof fn lemma_day_number_injective(d1: CivilDate, d2: CivilDate)
    requires
        d1.wf(),
        d2.wf(),
        day_number(d1) == day_number(d2),
    ensures
        d1 == d2,
{
    lemma_within_year(d1);
    lemma_within_year(d2);
    if d1.year < d2.year {
        lemma_year_order(d1.year as int, d2.year as int);
    } else if d2.year < d1.year {
        lemma_year_order(d2.year as int, d1.year as int);
    } else if d1.month < d2.month {
        lemma_month_order(d1.year as int, d1.month as int, d2.month as int);
    } else if d2.month < d1.month {
        lemma_month_order(d1.year as int, d2.month as int, d1.month as int);
    }
}

/// Every valid date lies within the representable range of day numbers.
pub proof fn lemma_date_in_range(d: CivilDate)
    requires
        d.wf(),
    ensures
        in_date_range(day_number(d)),
{
    lemma_within_year(d);
    if d.year > MIN_YEAR {
        lemma_year_order(MIN_YEAR as int, d.year as int);
    }
    if d.year < MAX_YEAR {
        lemma_year_order(d.year as int, MAX_YEAR as int);
    }
}

/// Every date but the last has a successor.
pub proof fn lemma_next_day(d: CivilDate)
    requires
        d.wf(),
        d != last_day(),
    ensures
        exists|e: CivilDate| e.wf() && day_number(e) == day_number(d) + 1,
{
    if d.day < days_in_month(d.year as int, d.month as int) {
        let e = CivilDate { year: d.year, month: d.month, day: (d.day + 1) as u32 };
        assert(e.wf() && day_number(e) == day_number(d) + 1);
    } else if d.month < 12 {
        let e = CivilDate { year: d.year, month: (d.month + 1) as u32, day: 1 };
        assert(e.wf() && day_number(e) == day_number(d) + 1);
    } else {
        lemma_year_step(d.year as int);
        let e = CivilDate { year: (d.year + 1) as i32, month: 1, day: 1 };
        assert(e.wf() && day_number(e) == day_number(d) + 1);
    }
}

/// Every day number within the range belongs to a date.
pub proof fn lemma_date_exists(n: int)
    requires
        in_date_range(n),
    ensures
        exists|e: CivilDate| e.wf() && day_number(e) == n,
    decreases n - day_number(first_day()),
{
    if n == day_number(first_day()) {
        assert(first_day().wf());
    } else {
        lemma_date_exists(n - 1);
        let e = choose|e: CivilDate| e.wf() && day_number(e) == n - 1;
        assert(e != last_day());
        lemma_next_day(e);
    }
}

/// Moving by days within the range gives the date with that day number.
pub proof fn lemma_shift_days(d: CivilDate, n: int)
    requires
        in_date_range(day_number(d) + n),
    ensures
        shift_days(d, n).wf(),
        day_number(shift_days(d, n)) == day_number(d) + n,
{
    lemma_date_exists(day_number(d) + n);
}

/// The seconds of a valid time of day are fewer than a day's.
pub proof fn lemma_second_of_day_bounds(dt: CivilDateTime)
    requires
        dt.time.wf(),
    ensures
        0 <= second_of_day(dt.time) < 86400,
{
}

/// Moving by seconds within the range is exact instant arithmetic.
pub proof fn lemma_shift_seconds(dt: CivilDateTime, k: int)
    requires
        dt.wf(),
        seconds_shift_in_range(dt, k),
    ensures
        shift_seconds(dt, k).wf(),
        instant(shift_seconds(dt, k)) == instant(dt) + k,
        shift_seconds(dt, k).time.nano == dt.time.nano,
{
    let s = second_of_day(dt.time) + k;
    let q = s / 86400;
    let r = s % 86400;
    lemma_fundamental_div_mod(s, 86400);
    vstd::arithmetic::div_mod::lemma_mod_bound(s, 86400);
    lemma_shift_days(dt.date, q);
    lemma_fundamental_div_mod(r, 3600);
    lemma_fundamental_div_mod(r % 3600, 60);
    lemma_mod_mod(r, 60, 60);
    vstd::arithmetic::div_mod::lemma_mod_bound(r, 3600);
    vstd::arithmetic::div_mod::lemma_mod_bound(r % 3600, 60);
    vstd::arithmetic::div_mod::lemma_mod_bound(r, 60);
    assert(0 <= r / 3600 < 24) by {
        lemma_div_is_ordered(0, r, 3600);
        lemma_div_is_ordered(r, 86399, 3600);
    }
    assert(0 <= (r % 3600) / 60 < 60) by {
        lemma_div_is_ordered(0, r % 3600, 60);
        lemma_div_is_ordered(r % 3600, 3599, 60);
    }
    let t = shift_seconds(dt, k).time;
    assert(second_of_day(t) == r);
    assert(instant(shift_seconds(dt, k)) == (day_number(dt.date) + q) * 86400 + r);
    assert((day_number(dt.date) + q) * 86400 + r == day_number(dt.date) * 86400 + s) by (nonlinear_arith)
        requires s == 86400 * q + r;
}

/// Distinct valid date-times with the same nanoseconds are distinct instants.
pub proof fn lemma_instant_injective(a: CivilDateTime, b: CivilDateTime)
    requires
        a.wf(),
        b.wf(),
        instant(a) == instant(b),
        a.time.nano == b.time.nano,
    ensures
        a == b,
{
    let sa = second_of_day(a.time);
    let sb = second_of_day(b.time);
    let da = day_number(a.date);
    let db = day_number(b.date);
    assert(da == db) by (nonlinear_arith)
        requires da * 86400 + sa == db * 86400 + sb, 0 <= sa < 86400, 0 <= sb < 86400;
    lemma_day_number_injective(a.date, b.date);
    let ta = a.time;
    let tb = b.time;
    assert(ta.hour == tb.hour) by (nonlinear_arith)
        requires ta.hour * 3600 + ta.minute * 60 + ta.second == tb.hour * 3600 + tb.minute * 60 + tb.second,
            ta.minute < 60, ta.second < 60, tb.minute < 60, tb.second < 60,
            ta.minute >= 0, ta.second >= 0, tb.minute >= 0, tb.second >= 0;
    assert(ta.minute == tb.minute) by (nonlinear_arith)
        requires ta.minute * 60 + ta.second == tb.minute * 60 + tb.second,
            ta.second < 60, tb.second < 60, ta.second >= 0, tb.second >= 0;
}

} // verus!
