//! Applying a duration to a date-time, forwards or backwards.

use vstd::prelude::*;
use crate::ast::{Duration, Quantifier, RelativeSpecifier, TimeUnit};
use crate::calendar::{
    date_add_days, date_add_months, date_from_ymd, date_sub_days, date_sub_months,
    datetime_add_seconds, day_number, in_date_range, seconds_shift_in_range, shift_days,
    shift_months, shift_seconds, ymd_date, CivilDateTime, MAX_YEAR, MIN_YEAR,
};
use crate::error::ProcessingError;

verus! {

#[derive(Debug, Clone, Copy, PartialEq, Eq, Structural)]
pub enum Direction {
    Forwards,
    Backwards,
}

/// `k` with the sign that `dir` gives it.
pub open spec fn signed(k: int, dir: Direction) -> int {
    if dir == Direction::Forwards { k } else { -k }
}

/// The failure to move `dt` by `count` units.
pub open spec fn offset_error(unit: TimeUnit, count: u32, dt: CivilDateTime, dir: Direction) -> ProcessingError {
    if dir == Direction::Forwards {
        ProcessingError::AddToDate { unit, count, date: dt }
    } else {
        ProcessingError::SubtractFromDate { unit, count, date: dt }
    }
}

/// Moves `dt` by a whole number of days, keeping the time of day.
pub open spec fn day_step(dt: CivilDateTime, days: int, unit: TimeUnit, count: u32, dir: Direction) -> Result<CivilDateTime, ProcessingError> {
    let delta = signed(days, dir);
    if in_date_range(day_number(dt.date) + delta) {
        Ok(CivilDateTime { date: shift_days(dt.date, delta), time: dt.time })
    } else {
        Err(offset_error(unit, count, dt, dir))
    }
}

/// Moves `dt` by a whole number of seconds.
pub open spec fn second_step(dt: CivilDateTime, secs: int, unit: TimeUnit, count: u32, dir: Direction) -> Result<CivilDateTime, ProcessingError> {
    let delta = signed(secs, dir);
    if seconds_shift_in_range(dt, delta) {
        Ok(shift_seconds(dt, delta))
    } else {
        Err(offset_error(unit, count, dt, dir))
    }
}

/// One quantifier applied to `dt`.
#[verifier::opaque]
pub open spec fn quantifier_step(q: Quantifier, dt: CivilDateTime, dir: Direction) -> Result<CivilDateTime, ProcessingError> {
    match q {
        Quantifier::Year(n) => {
            let y = dt.date.year + signed(n as int, dir);
            match ymd_date(y, dt.date.month as int, dt.date.day as int) {
                Some(e) => Ok(CivilDateTime { date: e, time: dt.time }),
                None => Err(ProcessingError::InvalidDate { year: y as i64, month: dt.date.month, day: dt.date.day as u64 }),
            }
        },
        Quantifier::Month(n) => match shift_months(dt.date, signed(n as int, dir)) {
            Some(e) => Ok(CivilDateTime { date: e, time: dt.time }),
            None => Err(offset_error(TimeUnit::Month, n, dt, dir)),
        },
        Quantifier::Week(n) => day_step(dt, 7 * n, TimeUnit::Week, n, dir),
        Quantifier::Day(n) => day_step(dt, n as int, TimeUnit::Day, n, dir),
        Quantifier::Hour(n) => second_step(dt, 3600 * n, TimeUnit::Hour, n, dir),
        Quantifier::Minute(n) => second_step(dt, 60 * n, TimeUnit::Minute, n, dir),
        Quantifier::Second(n) => second_step(dt, n as int, TimeUnit::Second, n, dir),
    }
}

/// The quantifiers applied in order; the first failure ends the walk.
pub open spec fn duration_result(qs: Seq<Quantifier>, dt: CivilDateTime, dir: Direction) -> Result<CivilDateTime, ProcessingError>
    decreases qs.len(),
{
    if qs.len() == 0 {
        Ok(dt)
    } else {
        match quantifier_step(qs[0], dt, dir) {
            Ok(next) => duration_result(qs.drop_first(), next, dir),
            Err(e) => Err(e),
        }
    }
}

fn shift_by_days(dt: CivilDateTime, days: u64, unit: TimeUnit, count: u32, dir: Direction) -> (r: Result<CivilDateTime, ProcessingError>)
    requires
        dt.wf(),
    ensures
        r == day_step(dt, days as int, unit, count, dir),
        r matches Ok(e) ==> e.wf(),
{
    let moved = if dir == Direction::Forwards { date_add_days(dt.date, days) } else { date_sub_days(dt.date, days) };
    match moved {
        Some(date) => Ok(CivilDateTime { date, time: dt.time }),
        None => Err(if dir == Direction::Forwards {
            ProcessingError::AddToDate { unit, count, date: dt }
        } else {
            ProcessingError::SubtractFromDate { unit, count, date: dt }
        }),
    }
}

fn shift_by_seconds(dt: CivilDateTime, secs: i64, unit: TimeUnit, count: u32, dir: Direction) -> (r: Result<CivilDateTime, ProcessingError>)
    requires
        dt.wf(),
        0 <= secs <= 3600 * u32::MAX,
    ensures
        r == second_step(dt, secs as int, unit, count, dir),
        r matches Ok(e) ==> e.wf(),
{
    let moved = if dir == Direction::Forwards { datetime_add_seconds(dt, secs) } else { datetime_add_seconds(dt, -secs) };
    match moved {
        Some(e) => Ok(e),
        None => Err(if dir == Direction::Forwards {
            ProcessingError::AddToDate { unit, count, date: dt }
        } else {
            ProcessingError::SubtractFromDate { unit, count, date: dt }
        }),
    }
}

/// Applies one quantifier to `dt`.
pub fn apply_quantifier(q: Quantifier, dt: CivilDateTime, dir: Direction) -> (r: Result<CivilDateTime, ProcessingError>)
    requires
        dt.wf(),
    ensures
        r == quantifier_step(q, dt, dir),
        r matches Ok(e) ==> e.wf(),
{
    reveal(quantifier_step);
    match q {
        Quantifier::Year(n) => {
            let y: i64 = if dir == Direction::Forwards { dt.date.year as i64 + n as i64 } else { dt.date.year as i64 - n as i64 };
            let found = if MIN_YEAR as i64 <= y && y <= MAX_YEAR as i64 {
                date_from_ymd(y as i32, dt.date.month, dt.date.day)
            } else {
                None
            };
            match found {
                Some(e) => Ok(CivilDateTime { date: e, time: dt.time }),
                None => Err(ProcessingError::InvalidDate { year: y, month: dt.date.month, day: dt.date.day as u64 }),
            }
        },
        Quantifier::Month(n) => {
            let moved = if dir == Direction::Forwards { date_add_months(dt.date, n) } else { date_sub_months(dt.date, n) };
            match moved {
                Some(e) => Ok(CivilDateTime { date: e, time: dt.time }),
                None => Err(if dir == Direction::Forwards {
                    ProcessingError::AddToDate { unit: TimeUnit::Month, count: n, date: dt }
                } else {
                    ProcessingError::SubtractFromDate { unit: TimeUnit::Month, count: n, date: dt }
                }),
            }
        },
        Quantifier::Week(n) => shift_by_days(dt, 7 * (n as u64), TimeUnit::Week, n, dir),
        Quantifier::Day(n) => shift_by_days(dt, n as u64, TimeUnit::Day, n, dir),
        Quantifier::Hour(n) => shift_by_seconds(dt, 3600 * (n as i64), TimeUnit::Hour, n, dir),
        Quantifier::Minute(n) => shift_by_seconds(dt, 60 * (n as i64), TimeUnit::Minute, n, dir),
        Quantifier::Second(n) => shift_by_seconds(dt, n as i64, TimeUnit::Second, n, dir),
    }
}

/// Applies the quantifiers of `duration` to `dt` in order, stopping at the
/// first one that fails.
pub fn apply_duration(duration: &Duration, dt: CivilDateTime, direction: Direction) -> (r: Result<CivilDateTime, ProcessingError>)
    requires
        dt.wf(),
    ensures
        r == duration_result(duration.0@, dt, direction),
        r matches Ok(e) ==> e.wf(),
{
    let qs = &duration.0;
    let mut cur = dt;
    let mut i: usize = 0;
    assert(qs@.subrange(0, qs@.len() as int) =~= qs@);
    while i < qs.len()
        invariant
            cur.wf(),
            qs@ == duration.0@,
            i <= qs@.len(),
            duration_result(qs@, dt, direction) == duration_result(qs@.subrange(i as int, qs@.len() as int), cur, direction),
        decreases qs.len() - i,
    {
        let ghost rest = qs@.subrange(i as int, qs@.len() as int);
        assert(rest.drop_first() =~= qs@.subrange(i + 1, qs@.len() as int));
        assert(rest[0] == qs@[i as int]);
        match apply_quantifier(qs[i], cur, direction) {
            Ok(next) => {
                cur = next;
            },
            Err(e) => {
                return Err(e);
            },
        }
        i = i + 1;
    }
    assert(qs@.subrange(i as int, qs@.len() as int) =~= Seq::<Quantifier>::empty());
    Ok(cur)
}

/// The quantifier of one `unit`.
pub open spec fn unit_quantifier(unit: TimeUnit) -> Quantifier {
    match unit {
        TimeUnit::Year => Quantifier::Year(1),
        TimeUnit::Month => Quantifier::Month(1),
        TimeUnit::Week => Quantifier::Week(1),
        TimeUnit::Day => Quantifier::Day(1),
        TimeUnit::Hour => Quantifier::Hour(1),
        TimeUnit::Minute => Quantifier::Minute(1),
        TimeUnit::Second => Quantifier::Second(1),
    }
}

/// "this/next/last <unit>": `now` itself, or one unit later or earlier.
pub open spec fn relative_unit_result(relative: RelativeSpecifier, unit: TimeUnit, now: CivilDateTime) -> Result<CivilDateTime, ProcessingError> {
    match relative {
        RelativeSpecifier::This => Ok(now),
        RelativeSpecifier::Next => quantifier_step(unit_quantifier(unit), now, Direction::Forwards),
        RelativeSpecifier::Last => quantifier_step(unit_quantifier(unit), now, Direction::Backwards),
    }
}

/// Resolves "this/next/last <unit>" against `now`.
pub fn relative_date_time_unit(relative: RelativeSpecifier, time_unit: TimeUnit, now: CivilDateTime) -> (r: Result<CivilDateTime, ProcessingError>)
    requires
        now.wf(),
    ensures
        r == relative_unit_result(relative, time_unit, now),
        r matches Ok(e) ==> e.wf(),
{
    let quantifier = match time_unit {
        TimeUnit::Year => Quantifier::Year(1),
        TimeUnit::Month => Quantifier::Month(1),
        TimeUnit::Week => Quantifier::Week(1),
        TimeUnit::Day => Quantifier::Day(1),
        TimeUnit::Hour => Quantifier::Hour(1),
        TimeUnit::Minute => Quantifier::Minute(1),
        TimeUnit::Second => Quantifier::Second(1),
    };
    match relative {
        RelativeSpecifier::This => Ok(now),
        RelativeSpecifier::Next => apply_quantifier(quantifier, now, Direction::Forwards),
        RelativeSpecifier::Last => apply_quantifier(quantifier, now, Direction::Backwards),
    }
}

} // verus!
