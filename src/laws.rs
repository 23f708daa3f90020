//! Properties that hold across the resolution functions, proved over their specifications.

use vstd::prelude::*;
use vstd::arithmetic::div_mod::{
    lemma_div_is_ordered, lemma_fundamental_div_mod, lemma_fundamental_div_mod_converse,
    lemma_mod_bound,
};
use crate::ast::{Date, DateTimeReference, IsoDate, Ordinal, Quantifier, RelativeSpecifier, TimeUnit, Weekday};
use crate::calendar::{
    day_number, days_in_month, in_date_range, instant, second_of_day, shift_days, valid_ymd,
    weekday_index, CivilDate, CivilDateTime,
};
use crate::calendar_facts::{
    lemma_date_in_range, lemma_instant_injective, lemma_second_of_day_bounds, lemma_shift_days,
    lemma_shift_seconds,
};
use crate::dispatch::date_result;
use crate::duration::{duration_result, quantifier_step, Direction};
use crate::error::{ParseConfig, ProcessingError, WeekStartDay};
use crate::reference::{
    days_from_week_start, days_of_week_result, denotes_month, ordinal_strategy_result, ordinal_result, reference_result, week_number,
};

verus! {

/// An ISO date built from a valid date resolves to that same date.
pub proof fn lemma_iso_round_trip(d: CivilDate, now: CivilDateTime, config: ParseConfig)
    requires
        d.wf(),
        d.year >= 0,
    ensures
        date_result(Date::IsoDate(IsoDate { year: d.year as u32, month: d.month, day: d.day }), now, config)
            == Ok::<CivilDate, ProcessingError>(d),
{
    reveal(date_result);
}

/// Year, month and day that form no date are rejected with exactly those values.
pub proof fn lemma_invalid_date_rejected(iso: IsoDate, now: CivilDateTime, config: ParseConfig)
    requires
        !valid_ymd(iso.year as int, iso.month as int, iso.day as int),
    ensures
        date_result(Date::IsoDate(iso), now, config) == Err::<CivilDate, ProcessingError>(
            ProcessingError::InvalidDate { year: iso.year as i64, month: iso.month, day: iso.day as u64 },
        ),
{
    reveal(date_result);
}

/// "today" is `now`'s date; "tomorrow", "overmorrow" and "yesterday" are one
/// day later, two days later and one day earlier.
pub proof fn lemma_keyword_dates(now: CivilDateTime, config: ParseConfig)
    requires
        now.wf(),
    ensures
        date_result(Date::Today, now, config) == Ok::<CivilDate, ProcessingError>(now.date),
        in_date_range(day_number(now.date) + 1) ==> (date_result(Date::Tomorrow, now, config) matches Ok(d)
            && d.wf() && day_number(d) == day_number(now.date) + 1),
        in_date_range(day_number(now.date) + 2) ==> (date_result(Date::Overmorrow, now, config) matches Ok(d)
            && d.wf() && day_number(d) == day_number(now.date) + 2),
        in_date_range(day_number(now.date) - 1) ==> (date_result(Date::Yesterday, now, config) matches Ok(d)
            && d.wf() && day_number(d) == day_number(now.date) - 1),
{
    reveal(date_result);
    if in_date_range(day_number(now.date) + 1) {
        lemma_shift_days(now.date, 1);
    }
    if in_date_range(day_number(now.date) + 2) {
        lemma_shift_days(now.date, 2);
    }
    if in_date_range(day_number(now.date) - 1) {
        lemma_shift_days(now.date, -1);
    }
}

/// "next <weekday>" on that very weekday is a week later, never today; when
/// that day is past the last representable date, the failure says so.
pub proof fn lemma_next_same_weekday(wd: Weekday, now: CivilDateTime, config: ParseConfig)
    requires
        now.wf(),
        weekday_index(now.date) == wd.spec_index(),
    ensures
        in_date_range(day_number(now.date) + 7) ==> (date_result(Date::RelativeWeekday(RelativeSpecifier::Next, wd), now, config) matches Ok(d)
            && d.wf() && day_number(d) == day_number(now.date) + 7),
        !in_date_range(day_number(now.date) + 7) ==> date_result(Date::RelativeWeekday(RelativeSpecifier::Next, wd), now, config)
            == Err::<CivilDate, ProcessingError>(ProcessingError::AddToNow { unit: TimeUnit::Day, count: 7 }),
{
    reveal(date_result);
    if in_date_range(day_number(now.date) + 7) {
        lemma_shift_days(now.date, 7);
    }
}

/// "last <weekday>" on that very weekday is a week earlier; when that day is
/// before the first representable date, the failure says so.
pub proof fn lemma_last_same_weekday(wd: Weekday, now: CivilDateTime, config: ParseConfig)
    requires
        now.wf(),
        weekday_index(now.date) == wd.spec_index(),
    ensures
        in_date_range(day_number(now.date) - 7) ==> (date_result(Date::RelativeWeekday(RelativeSpecifier::Last, wd), now, config) matches Ok(d)
            && d.wf() && day_number(d) == day_number(now.date) - 7),
        !in_date_range(day_number(now.date) - 7) ==> date_result(Date::RelativeWeekday(RelativeSpecifier::Last, wd), now, config)
            == Err::<CivilDate, ProcessingError>(ProcessingError::SubtractFromNow { unit: TimeUnit::Day, count: 7 }),
{
    reveal(date_result);
    if in_date_range(day_number(now.date) - 7) {
        lemma_shift_days(now.date, -7);
    }
}

/// "1st day of last week" differs between a Sunday and a Monday week start;
/// both resolve whenever the day 13 days before `now` is representable.
pub proof fn lemma_week_start_matters(now: CivilDateTime)
    requires
        now.wf(),
    ensures
        ({
            let reference = DateTimeReference::RelativeTimeUnit(RelativeSpecifier::Last, TimeUnit::Week);
            let sunday = ordinal_result(Ordinal::First, TimeUnit::Day, reference, now, ParseConfig { week_start_day: WeekStartDay::Sunday });
            let monday = ordinal_result(Ordinal::First, TimeUnit::Day, reference, now, ParseConfig { week_start_day: WeekStartDay::Monday });
            &&& (sunday is Ok && monday is Ok ==> sunday->Ok_0 != monday->Ok_0)
            &&& (in_date_range(day_number(now.date) - 13) ==> sunday is Ok && monday is Ok)
        }),
{
    let reference = DateTimeReference::RelativeTimeUnit(RelativeSpecifier::Last, TimeUnit::Week);
    let sun = ParseConfig { week_start_day: WeekStartDay::Sunday };
    let mon = ParseConfig { week_start_day: WeekStartDay::Monday };
    assert(reference_result(reference, now) is Ok ==> reference_result(reference, now)->Ok_0.wf()) by {
        reveal(quantifier_step);
        reveal(reference_result);
        if in_date_range(day_number(now.date) - 7) {
            lemma_shift_days(now.date, -7);
        }
    }
    if in_date_range(day_number(now.date) - 13) {
        reveal(quantifier_step);
        reveal(reference_result);
        lemma_date_in_range(now.date);
        assert(in_date_range(day_number(now.date) - 7));
        lemma_shift_days(now.date, -7);
        let b = shift_days(now.date, -7);
        assert(reference_result(reference, now) == Ok::<CivilDateTime, ProcessingError>(
            CivilDateTime { date: b, time: now.time }));
        lemma_mod_bound(day_number(b) - 1, 7);
        lemma_mod_bound(weekday_index(b) + 1, 7);
        assert(in_date_range(day_number(b) - days_from_week_start(b, sun)));
        assert(in_date_range(day_number(b) - days_from_week_start(b, mon)));
        lemma_shift_days(b, -days_from_week_start(b, sun));
        lemma_shift_days(b, -days_from_week_start(b, mon));
    }
    if let Ok(anchor) = reference_result(reference, now) {
        let b = anchor.date;
        reveal(ordinal_strategy_result);
        lemma_first_of_week(b, sun);
        lemma_first_of_week(b, mon);
        let w = weekday_index(b);
        lemma_mod_bound(day_number(b) - 1, 7);
        assert((w + 1) % 7 != w);
        assert(days_from_week_start(b, sun) != days_from_week_start(b, mon));
        assert(ordinal_result(Ordinal::First, TimeUnit::Day, reference, now, sun) == days_of_week_result(Ordinal::First, b, sun));
        assert(ordinal_result(Ordinal::First, TimeUnit::Day, reference, now, mon) == days_of_week_result(Ordinal::First, b, mon));
    }
}

/// The first day of the week holding `b` lies the week-start offset before it.
proof fn lemma_first_of_week(b: CivilDate, config: ParseConfig)
    requires
        b.wf(),
    ensures
        days_of_week_result(Ordinal::First, b, config) matches Ok(x) ==> x.wf()
            && day_number(x) == day_number(b) - days_from_week_start(b, config),
{
    let off = days_from_week_start(b, config);
    if in_date_range(day_number(b) - off) {
        lemma_shift_days(b, -off);
        let start = shift_days(b, -off);
        lemma_shift_days(start, 0);
    }
}

/// An ordinal week of a month starts within that month; an ordinal past the
/// month's last 7-day chunk is a failure.
pub proof fn lemma_week_of_month_stays(ordinal: Ordinal, reference: DateTimeReference, now: CivilDateTime, config: ParseConfig)
    requires
        now.wf(),
        denotes_month(reference),
    ensures
        ordinal_result(ordinal, TimeUnit::Week, reference, now, config) matches Ok(d) ==>
            (reference_result(reference, now) matches Ok(a) && d.year == a.date.year && d.month == a.date.month
            && 1 <= d.day <= days_in_month(a.date.year as int, a.date.month as int)),
        reference_result(reference, now) matches Ok(a) ==> ((ordinal matches Ordinal::Nth(n)
            && n > week_number(Ordinal::Last, days_in_month(a.date.year as int, a.date.month as int)))
            ==> ordinal_result(ordinal, TimeUnit::Week, reference, now, config) is Err),
{
    reveal(ordinal_strategy_result);
    if let Ok(a) = reference_result(reference, now) {
        let dim = days_in_month(a.date.year as int, a.date.month as int);
        if let Ordinal::Nth(n) = ordinal {
            if n > week_number(Ordinal::Last, dim) {
                assert(1 + (n - 1) * 7 > dim) by (nonlinear_arith)
                    requires n > (dim - 1) / 7 + 1, dim >= 1;
            }
        }
    }
}

/// Whether a quantifier moves by a fixed length of time (not years or months).
pub open spec fn fixed_length(q: Quantifier) -> bool {
    !(q is Year) && !(q is Month)
}

/// Seconds that a fixed-length quantifier moves by.
pub open spec fn quantifier_seconds(q: Quantifier) -> int {
    match q {
        Quantifier::Week(n) => 604800 * n,
        Quantifier::Day(n) => 86400 * n,
        Quantifier::Hour(n) => 3600 * n,
        Quantifier::Minute(n) => 60 * n,
        Quantifier::Second(n) => n as int,
        _ => 0,
    }
}

pub open spec fn total_seconds(qs: Seq<Quantifier>) -> int
    decreases qs.len(),
{
    if qs.len() == 0 { 0 } else { quantifier_seconds(qs[0]) + total_seconds(qs.drop_first()) }
}

proof fn lemma_total_nonneg(qs: Seq<Quantifier>)
    ensures
        total_seconds(qs) >= 0,
    decreases qs.len(),
{
    if qs.len() > 0 {
        lemma_total_nonneg(qs.drop_first());
    }
}

/// The day of an instant shifted by `delta` seconds.
proof fn lemma_day_of_instant(dt: CivilDateTime, delta: int)
    requires
        dt.wf(),
    ensures
        (instant(dt) + delta) / 86400 == day_number(dt.date) + (second_of_day(dt.time) + delta) / 86400,
{
    let s = second_of_day(dt.time) + delta;
    lemma_fundamental_div_mod(s, 86400);
    lemma_mod_bound(s, 86400);
    let q = s / 86400;
    let r = s % 86400;
    assert(instant(dt) + delta == (day_number(dt.date) + q) * 86400 + r) by (nonlinear_arith)
        requires s == 86400 * q + r, instant(dt) == day_number(dt.date) * 86400 + second_of_day(dt.time),
            s == second_of_day(dt.time) + delta;
    lemma_fundamental_div_mod_converse(instant(dt) + delta, 86400, day_number(dt.date) + q, r);
}

/// An instant between two valid date-times falls on a representable day.
proof fn lemma_between_in_range(lo: CivilDateTime, hi: CivilDateTime, x: int)
    requires
        lo.wf(),
        hi.wf(),
        instant(lo) <= x <= instant(hi),
    ensures
        in_date_range(x / 86400),
{
    lemma_day_of_instant(lo, 0);
    lemma_day_of_instant(hi, 0);
    lemma_second_of_day_bounds(lo);
    lemma_second_of_day_bounds(hi);
    lemma_div_is_ordered(instant(lo), x, 86400);
    lemma_div_is_ordered(x, instant(hi), 86400);
    lemma_date_in_range(lo.date);
    lemma_date_in_range(hi.date);
}

/// One fixed-length step that stays in range moves the instant exactly.
proof fn lemma_fixed_step(q: Quantifier, cur: CivilDateTime, dir: Direction)
    requires
        cur.wf(),
        fixed_length(q),
        in_date_range((instant(cur) + (if dir == Direction::Forwards { quantifier_seconds(q) } else { -quantifier_seconds(q) })) / 86400),
    ensures
        quantifier_step(q, cur, dir) matches Ok(next) && next.wf()
            && instant(next) == instant(cur) + (if dir == Direction::Forwards { quantifier_seconds(q) } else { -quantifier_seconds(q) })
            && next.time.nano == cur.time.nano,
{
    reveal(quantifier_step);
    let delta = if dir == Direction::Forwards { quantifier_seconds(q) } else { -quantifier_seconds(q) };
    lemma_day_of_instant(cur, delta);
    lemma_second_of_day_bounds(cur);
    match q {
        Quantifier::Week(n) => {
            let k: int = if dir == Direction::Forwards { 7 * n } else { -7 * n };
            assert((second_of_day(cur.time) + delta) / 86400 == k) by {
                lemma_fundamental_div_mod_converse(second_of_day(cur.time) + delta, 86400, k, second_of_day(cur.time));
            }
            lemma_shift_days(cur.date, k);
        },
        Quantifier::Day(n) => {
            let k: int = if dir == Direction::Forwards { n as int } else { -n };
            assert((second_of_day(cur.time) + delta) / 86400 == k) by {
                lemma_fundamental_div_mod_converse(second_of_day(cur.time) + delta, 86400, k, second_of_day(cur.time));
            }
            lemma_shift_days(cur.date, k);
        },
        _ => {
            lemma_shift_seconds(cur, delta);
        },
    }
}

/// Applying fixed-length quantifiers forwards moves the instant by their total.
proof fn lemma_forward_instant(qs: Seq<Quantifier>, dt: CivilDateTime)
    requires
        dt.wf(),
        forall|i: int| 0 <= i < qs.len() ==> fixed_length(#[trigger] qs[i]),
        duration_result(qs, dt, Direction::Forwards) is Ok,
    ensures
        ({
            let e = duration_result(qs, dt, Direction::Forwards)->Ok_0;
            e.wf() && instant(e) == instant(dt) + total_seconds(qs) && e.time.nano == dt.time.nano
        }),
    decreases qs.len(),
{
    reveal(quantifier_step);
    if qs.len() > 0 {
        let q = qs[0];
        assert(fixed_length(q));
        let next = quantifier_step(q, dt, Direction::Forwards)->Ok_0;
        let delta = quantifier_seconds(q);
        lemma_day_of_instant(dt, delta);
        lemma_second_of_day_bounds(dt);
        match q {
            Quantifier::Week(n) => {
                assert((second_of_day(dt.time) + delta) / 86400 == 7 * n) by {
                    lemma_fundamental_div_mod_converse(second_of_day(dt.time) + delta, 86400, 7 * n, second_of_day(dt.time));
                }
            },
            Quantifier::Day(n) => {
                assert((second_of_day(dt.time) + delta) / 86400 == n) by {
                    lemma_fundamental_div_mod_converse(second_of_day(dt.time) + delta, 86400, n as int, second_of_day(dt.time));
                }
            },
            _ => {},
        }
        lemma_fixed_step(q, dt, Direction::Forwards);
        let rest = qs.drop_first();
        assert forall|i: int| 0 <= i < rest.len() implies fixed_length(#[trigger] rest[i]) by {
            assert(rest[i] == qs[i + 1]);
        }
        lemma_forward_instant(rest, next);
    }
}

/// Applying fixed-length quantifiers backwards from `cur` succeeds while the
/// target stays at or after a valid `lo`, and moves the instant back by their total.
proof fn lemma_backward_instant(qs: Seq<Quantifier>, cur: CivilDateTime, lo: CivilDateTime)
    requires
        cur.wf(),
        lo.wf(),
        forall|i: int| 0 <= i < qs.len() ==> fixed_length(#[trigger] qs[i]),
        instant(cur) - total_seconds(qs) >= instant(lo),
    ensures
        duration_result(qs, cur, Direction::Backwards) matches Ok(e) && e.wf()
            && instant(e) == instant(cur) - total_seconds(qs) && e.time.nano == cur.time.nano,
    decreases qs.len(),
{
    if qs.len() > 0 {
        let q = qs[0];
        assert(fixed_length(q));
        let rest = qs.drop_first();
        lemma_total_nonneg(rest);
        let x = instant(cur) - quantifier_seconds(q);
        assert(quantifier_seconds(q) >= 0);
        lemma_between_in_range(lo, cur, x);
        lemma_fixed_step(q, cur, Direction::Backwards);
        let next = quantifier_step(q, cur, Direction::Backwards)->Ok_0;
        assert forall|i: int| 0 <= i < rest.len() implies fixed_length(#[trigger] rest[i]) by {
            assert(rest[i] == qs[i + 1]);
        }
        lemma_backward_instant(rest, next, lo);
    }
}

/// A duration of weeks, days, hours, minutes and seconds applied forwards and
/// then backwards gives back the date-time it started from.
pub proof fn lemma_forward_backward(qs: Seq<Quantifier>, dt: CivilDateTime)
    requires
        dt.wf(),
        forall|i: int| 0 <= i < qs.len() ==> fixed_length(#[trigger] qs[i]),
        duration_result(qs, dt, Direction::Forwards) is Ok,
    ensures
        duration_result(qs, duration_result(qs, dt, Direction::Forwards)->Ok_0, Direction::Backwards)
            == Ok::<CivilDateTime, ProcessingError>(dt),
{
    lemma_forward_instant(qs, dt);
    let e = duration_result(qs, dt, Direction::Forwards)->Ok_0;
    lemma_backward_instant(qs, e, dt);
    let back = duration_result(qs, e, Direction::Backwards)->Ok_0;
    lemma_instant_injective(back, dt);
}

} // verus!
