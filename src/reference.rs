//! Anchors of ordinal expressions, and the ordinal-of-unit strategies.

use vstd::prelude::*;
use crate::ast::{DateTimeReference, MonthSpec, Ordinal, RelativeSpecifier, TimeUnit, YearSpec};
use crate::calendar::{
    date_add_days, date_from_ymd, date_sub_days, day_number, days_in_month, days_in_year,
    in_date_range, is_leap_year, shift_days, weekday_from_monday, weekday_index, ymd_date,
    CivilDate, CivilDateTime, ClockTime, MAX_YEAR, MIN_YEAR,
};
use crate::duration::{
    apply_duration, duration_result, relative_date_time_unit, relative_unit_result, Direction,
};
use crate::error::{ParseConfig, ProcessingError, WeekStartDay};
use crate::weekday::days_before_now;

verus! {

pub open spec fn midnight() -> ClockTime {
    ClockTime { hour: 0, minute: 0, second: 0, nano: 0 }
}

/// Number of days in month `m` of year `y`.
pub fn month_length(y: i32, m: u32) -> (r: u32)
    requires
        1 <= m <= 12,
        MIN_YEAR <= y <= MAX_YEAR,
    ensures
        r == days_in_month(y as int, m as int),
{
    if m == 2 {
        if leap_year(y) { 29 } else { 28 }
    } else if m == 4 || m == 6 || m == 9 || m == 11 {
        30
    } else {
        31
    }
}

/// Whether `y` is a leap year.
pub fn leap_year(y: i32) -> (r: bool)
    requires
        MIN_YEAR <= y <= MAX_YEAR,
    ensures
        r == is_leap_year(y as int),
{
    // shifted by whole 400-year cycles to work on a non-negative number
    let shifted: u64 = (y as i64 + 400_000) as u64;
    assert(shifted as int % 4 == y as int % 4 && shifted as int % 100 == y as int % 100
        && shifted as int % 400 == y as int % 400);
    shifted % 4 == 0 && (shifted % 100 != 0 || shifted % 400 == 0)
}

/// Year that a year designator names, seen from `now_year`.
pub open spec fn target_year(year_spec: Option<YearSpec>, now_year: int) -> int {
    match year_spec {
        None => now_year,
        Some(YearSpec::Relative(RelativeSpecifier::This)) => now_year,
        Some(YearSpec::Relative(RelativeSpecifier::Next)) => now_year + 1,
        Some(YearSpec::Relative(RelativeSpecifier::Last)) => now_year - 1,
        Some(YearSpec::Absolute(y)) => y as int,
    }
}

/// Month and year that a month designator names, given the target year.
pub open spec fn target_month(month_spec: MonthSpec, year: int, now_month: int) -> (int, int) {
    match month_spec {
        MonthSpec::Absolute(m) => (m.spec_number(), year),
        MonthSpec::Current => (now_month, year),
        MonthSpec::RelativeCurrent(RelativeSpecifier::This) => (now_month, year),
        MonthSpec::RelativeCurrent(RelativeSpecifier::Next) =>
            if now_month == 12 { (1, year + 1) } else { (now_month + 1, year) },
        MonthSpec::RelativeCurrent(RelativeSpecifier::Last) =>
            if now_month == 1 { (12, year - 1) } else { (now_month - 1, year) },
        MonthSpec::Relative(RelativeSpecifier::This, m) => (m.spec_number(), year),
        MonthSpec::Relative(RelativeSpecifier::Next, m) => (m.spec_number(), year + 1),
        MonthSpec::Relative(RelativeSpecifier::Last, m) =>
            if now_month <= m.spec_number() { (m.spec_number(), year - 1) } else { (m.spec_number(), year) },
    }
}

/// Midnight on the first day of the month that the designators name.
pub open spec fn month_year_result(month_spec: MonthSpec, year_spec: Option<YearSpec>, now: CivilDateTime) -> Result<CivilDateTime, ProcessingError> {
    let (m, y) = target_month(month_spec, target_year(year_spec, now.date.year as int), now.date.month as int);
    match ymd_date(y, m, 1) {
        Some(d) => Ok(CivilDateTime { date: d, time: midnight() }),
        None => Err(ProcessingError::InvalidDate { year: y as i64, month: m as u32, day: 1 }),
    }
}

/// `now` moved by whole days, keeping its time of day.
pub open spec fn keyword_shift(now: CivilDateTime, n: int) -> Result<CivilDateTime, ProcessingError> {
    if in_date_range(day_number(now.date) + n) {
        Ok(CivilDateTime { date: shift_days(now.date, n), time: now.time })
    } else if n > 0 {
        Err(ProcessingError::AddToNow { unit: TimeUnit::Day, count: n as u32 })
    } else {
        Err(ProcessingError::SubtractFromNow { unit: TimeUnit::Day, count: (-n) as u32 })
    }
}

/// The anchor date-time that a reference denotes.
#[verifier::opaque]
pub open spec fn reference_result(reference: DateTimeReference, now: CivilDateTime) -> Result<CivilDateTime, ProcessingError> {
    match reference {
        DateTimeReference::MonthYear(month_spec, year_spec) => month_year_result(month_spec, year_spec, now),
        DateTimeReference::Ago(duration) => duration_result(duration.0@, now, Direction::Backwards),
        DateTimeReference::RelativeTimeUnit(relative, unit) => relative_unit_result(relative, unit, now),
        DateTimeReference::TheTimeUnit(_) => Ok(now),
        DateTimeReference::Today => Ok(now),
        DateTimeReference::Now => Ok(now),
        DateTimeReference::Tomorrow => keyword_shift(now, 1),
        DateTimeReference::Yesterday => keyword_shift(now, -1),
        DateTimeReference::Overmorrow => keyword_shift(now, 2),
    }
}

fn shift_keeping_time(now: CivilDateTime, n: u64, forward: bool) -> (r: Result<CivilDateTime, ProcessingError>)
    requires
        now.wf(),
        1 <= n <= 2,
    ensures
        r == keyword_shift(now, if forward { n as int } else { -(n as int) }),
        r matches Ok(e) ==> e.wf(),
{
    if forward {
        match date_add_days(now.date, n) {
            Some(d) => Ok(CivilDateTime { date: d, time: now.time }),
            None => Err(ProcessingError::AddToNow { unit: TimeUnit::Day, count: n as u32 }),
        }
    } else {
        match date_sub_days(now.date, n) {
            Some(d) => Ok(CivilDateTime { date: d, time: now.time }),
            None => Err(ProcessingError::SubtractFromNow { unit: TimeUnit::Day, count: n as u32 }),
        }
    }
}

/// Resolves a reference to its anchor date-time.
pub fn resolve_datetime_reference(datetime_reference: &DateTimeReference, now: CivilDateTime) -> (r: Result<CivilDateTime, ProcessingError>)
    requires
        now.wf(),
    ensures
        r == reference_result(*datetime_reference, now),
        r matches Ok(e) ==> e.wf(),
{
    reveal(reference_result);
    match datetime_reference {
        DateTimeReference::MonthYear(month_spec, year_spec) => {
            let now_year = now.date.year as i64;
            let year: i64 = match year_spec {
                None => now_year,
                Some(YearSpec::Relative(RelativeSpecifier::This)) => now_year,
                Some(YearSpec::Relative(RelativeSpecifier::Next)) => now_year + 1,
                Some(YearSpec::Relative(RelativeSpecifier::Last)) => now_year - 1,
                Some(YearSpec::Absolute(y)) => *y as i64,
            };
            let now_month = now.date.month;
            let (month, final_year): (u32, i64) = match month_spec {
                MonthSpec::Absolute(m) => (m.number_from_month(), year),
                MonthSpec::Current => (now_month, year),
                MonthSpec::RelativeCurrent(relative) => match relative {
                    RelativeSpecifier::This => (now_month, year),
                    RelativeSpecifier::Next => if now_month == 12 { (1, year + 1) } else { (now_month + 1, year) },
                    RelativeSpecifier::Last => if now_month == 1 { (12, year - 1) } else { (now_month - 1, year) },
                },
                MonthSpec::Relative(relative, m) => {
                    let n = m.number_from_month();
                    match relative {
                        RelativeSpecifier::This => (n, year),
                        RelativeSpecifier::Next => (n, year + 1),
                        RelativeSpecifier::Last => if now_month <= n { (n, year - 1) } else { (n, year) },
                    }
                },
            };
            let found = if MIN_YEAR as i64 <= final_year && final_year <= MAX_YEAR as i64 {
                date_from_ymd(final_year as i32, month, 1)
            } else {
                None
            };
            match found {
                Some(d) => Ok(CivilDateTime { date: d, time: ClockTime { hour: 0, minute: 0, second: 0, nano: 0 } }),
                None => Err(ProcessingError::InvalidDate { year: final_year, month, day: 1 }),
            }
        },
        DateTimeReference::Ago(duration) => apply_duration(duration, now, Direction::Backwards),
        DateTimeReference::RelativeTimeUnit(relative, time_unit) => relative_date_time_unit(*relative, *time_unit, now),
        DateTimeReference::TheTimeUnit(_) => Ok(now),
        DateTimeReference::Today => Ok(now),
        DateTimeReference::Now => Ok(now),
        DateTimeReference::Tomorrow => shift_keeping_time(now, 1, true),
        DateTimeReference::Yesterday => shift_keeping_time(now, 1, false),
        DateTimeReference::Overmorrow => shift_keeping_time(now, 2, true),
    }
}

/// Day of the anchor's month: the first, the last, or the n-th.
pub open spec fn days_of_month_result(ordinal: Ordinal, b: CivilDate) -> Result<CivilDate, ProcessingError> {
    let day = match ordinal {
        Ordinal::First => 1,
        Ordinal::Last => days_in_month(b.year as int, b.month as int),
        Ordinal::Nth(n) => n as int,
    };
    match ymd_date(b.year as int, b.month as int, day) {
        Some(d) => Ok(d),
        None => Err(ProcessingError::InvalidDate { year: b.year as i64, month: b.month, day: day as u64 }),
    }
}

/// Days from the start of the week to `b`, by the configured week start.
pub open spec fn days_from_week_start(b: CivilDate, config: ParseConfig) -> int {
    match config.week_start_day {
        WeekStartDay::Sunday => (weekday_index(b) + 1) % 7,
        WeekStartDay::Monday => weekday_index(b),
    }
}

/// Day of the week that holds `b`: its first, its last, or the n-th (1 to 7).
pub open spec fn days_of_week_result(ordinal: Ordinal, b: CivilDate, config: ParseConfig) -> Result<CivilDate, ProcessingError> {
    match days_before_now(b, days_from_week_start(b, config)) {
        Err(e) => Err(e),
        Ok(start) => {
            let step = match ordinal {
                Ordinal::First => 0,
                Ordinal::Last => 6,
                Ordinal::Nth(n) => n - 1,
            };
            if ordinal matches Ordinal::Nth(n) && (n < 1 || n > 7) {
                Err(ProcessingError::InvalidDate { year: b.year as i64, month: b.month, day: ordinal->Nth_0 as u64 })
            } else if in_date_range(day_number(start) + step) {
                Ok(shift_days(start, step))
            } else {
                Err(ProcessingError::AddToDate { unit: TimeUnit::Day, count: step as u32, date: CivilDateTime { date: start, time: midnight() } })
            }
        },
    }
}

/// First day of a month of the anchor's year: January, December, or the n-th.
pub open spec fn months_of_year_result(ordinal: Ordinal, b: CivilDate) -> Result<CivilDate, ProcessingError> {
    let m = match ordinal {
        Ordinal::First => 1,
        Ordinal::Last => 12,
        Ordinal::Nth(n) => n as int,
    };
    match ymd_date(b.year as int, m, 1) {
        Some(d) => Ok(d),
        None => Err(ProcessingError::InvalidDate { year: b.year as i64, month: m as u32, day: 1 }),
    }
}

/// Day of the anchor's year: January 1, December 31, or the n-th day.
pub open spec fn days_of_year_result(ordinal: Ordinal, b: CivilDate) -> Result<CivilDate, ProcessingError> {
    let jan1 = CivilDate { year: b.year, month: 1, day: 1 };
    match ordinal {
        Ordinal::First => Ok(jan1),
        Ordinal::Last => Ok(CivilDate { year: b.year, month: 12, day: 31 }),
        Ordinal::Nth(n) => if 1 <= n <= days_in_year(b.year as int) && in_date_range(day_number(jan1) + n - 1) {
            Ok(shift_days(jan1, n - 1))
        } else {
            Err(ProcessingError::AddToDate { unit: TimeUnit::Day, count: n, date: CivilDateTime { date: jan1, time: midnight() } })
        },
    }
}

/// Number of the 7-day chunk, counted from day 1, that an ordinal picks in a month of `dim` days.
pub open spec fn week_number(ordinal: Ordinal, dim: int) -> int {
    match ordinal {
        Ordinal::First => 1,
        Ordinal::Last => (dim - 1) / 7 + 1,
        Ordinal::Nth(n) => n as int,
    }
}

/// First day of a 7-day chunk of the anchor's month; a chunk that does not
/// start within the month is a failure.
pub open spec fn weeks_of_month_result(ordinal: Ordinal, b: CivilDate) -> Result<CivilDate, ProcessingError> {
    let dim = days_in_month(b.year as int, b.month as int);
    let w = week_number(ordinal, dim);
    let day = if w >= 1 { 1 + (w - 1) * 7 } else { 0 };
    if 1 <= day <= dim {
        Ok(CivilDate { year: b.year, month: b.month, day: day as u32 })
    } else {
        Err(ProcessingError::InvalidDate { year: b.year as i64, month: b.month, day: day as u64 })
    }
}

/// Whether the reference denotes a year.
pub open spec fn denotes_year(reference: DateTimeReference) -> bool {
    ||| reference matches DateTimeReference::RelativeTimeUnit(_, TimeUnit::Year)
    ||| reference matches DateTimeReference::TheTimeUnit(TimeUnit::Year)
}

/// Whether the reference denotes a month.
pub open spec fn denotes_month(reference: DateTimeReference) -> bool {
    ||| reference matches DateTimeReference::RelativeTimeUnit(_, TimeUnit::Month)
    ||| reference matches DateTimeReference::MonthYear(_, _)
}

/// The ordinal strategy chosen by unit and reference, applied to the anchor date `b`.
#[verifier::opaque]
pub open spec fn ordinal_strategy_result(ordinal: Ordinal, unit: TimeUnit, reference: DateTimeReference, b: CivilDate, config: ParseConfig) -> Result<CivilDate, ProcessingError> {
    if unit == TimeUnit::Day && denotes_year(reference) {
        days_of_year_result(ordinal, b)
    } else if unit == TimeUnit::Day && reference matches DateTimeReference::RelativeTimeUnit(RelativeSpecifier::Last, TimeUnit::Week) {
        days_of_week_result(ordinal, b, config)
    } else if unit == TimeUnit::Week && denotes_month(reference) {
        weeks_of_month_result(ordinal, b)
    } else {
        match unit {
            TimeUnit::Day => days_of_month_result(ordinal, b),
            TimeUnit::Week => days_of_week_result(ordinal, b, config),
            TimeUnit::Month => months_of_year_result(ordinal, b),
            TimeUnit::Year => days_of_year_result(ordinal, b),
            _ => Ok(b),
        }
    }
}

/// "<ordinal> <unit> of <reference>": the reference's anchor, then the strategy.
/// A reference that cannot be resolved is reported wrapped.
pub open spec fn ordinal_result(ordinal: Ordinal, unit: TimeUnit, reference: DateTimeReference, now: CivilDateTime, config: ParseConfig) -> Result<CivilDate, ProcessingError> {
    match reference_result(reference, now) {
        Err(e) => Err(ProcessingError::InnerReference(Box::new(e))),
        Ok(anchor) => ordinal_strategy_result(ordinal, unit, reference, anchor.date, config),
    }
}

/// The day of the anchor's month that the ordinal names.
pub fn apply_ordinal_to_days(ordinal: Ordinal, base: CivilDate) -> (r: Result<CivilDate, ProcessingError>)
    requires
        base.wf(),
    ensures
        r == days_of_month_result(ordinal, base),
        r matches Ok(e) ==> e.wf(),
{
    let day: u32 = match ordinal {
        Ordinal::First => 1,
        Ordinal::Last => month_length(base.year, base.month),
        Ordinal::Nth(n) => n,
    };
    match date_from_ymd(base.year, base.month, day) {
        Some(d) => Ok(d),
        None => Err(ProcessingError::InvalidDate { year: base.year as i64, month: base.month, day: day as u64 }),
    }
}

/// The day of the week holding `base` that the ordinal names.
pub fn apply_ordinal_to_weeks(ordinal: Ordinal, base: CivilDate, config: ParseConfig) -> (r: Result<CivilDate, ProcessingError>)
    requires
        base.wf(),
    ensures
        r == days_of_week_result(ordinal, base, config),
        r matches Ok(e) ==> e.wf(),
{
    let wd = weekday_from_monday(base);
    let offset: u32 = match config.week_start_day {
        WeekStartDay::Sunday => (wd + 1) % 7,
        WeekStartDay::Monday => wd,
    };
    let start = match date_sub_days(base, offset as u64) {
        Some(d) => d,
        None => {
            return Err(ProcessingError::SubtractFromNow { unit: TimeUnit::Day, count: offset });
        },
    };
    let step: u32 = match ordinal {
        Ordinal::First => 0,
        Ordinal::Last => 6,
        Ordinal::Nth(n) => {
            if n < 1 || n > 7 {
                return Err(ProcessingError::InvalidDate { year: base.year as i64, month: base.month, day: n as u64 });
            }
            n - 1
        },
    };
    match date_add_days(start, step as u64) {
        Some(d) => Ok(d),
        None => Err(ProcessingError::AddToDate {
            unit: TimeUnit::Day,
            count: step,
            date: CivilDateTime { date: start, time: ClockTime { hour: 0, minute: 0, second: 0, nano: 0 } },
        }),
    }
}

/// The first day of the month of `base`'s year that the ordinal names.
pub fn apply_ordinal_to_months(ordinal: Ordinal, base: CivilDate) -> (r: Result<CivilDate, ProcessingError>)
    requires
        base.wf(),
    ensures
        r == months_of_year_result(ordinal, base),
        r matches Ok(e) ==> e.wf(),
{
    let month: u32 = match ordinal {
        Ordinal::First => 1,
        Ordinal::Last => 12,
        Ordinal::Nth(n) => n,
    };
    match date_from_ymd(base.year, month, 1) {
        Some(d) => Ok(d),
        None => Err(ProcessingError::InvalidDate { year: base.year as i64, month, day: 1 }),
    }
}

/// Number of days in year `y`.
pub fn year_length(y: i32) -> (r: u32)
    requires
        MIN_YEAR <= y <= MAX_YEAR,
    ensures
        r == days_in_year(y as int),
{
    if leap_year(y) { 366 } else { 365 }
}

/// The day of `base`'s year that the ordinal names.
pub fn apply_ordinal_to_years(ordinal: Ordinal, base: CivilDate) -> (r: Result<CivilDate, ProcessingError>)
    requires
        base.wf(),
    ensures
        r == days_of_year_result(ordinal, base),
        r matches Ok(e) ==> e.wf(),
{
    let jan1 = CivilDate { year: base.year, month: 1, day: 1 };
    match ordinal {
        Ordinal::First => Ok(jan1),
        Ordinal::Last => Ok(CivilDate { year: base.year, month: 12, day: 31 }),
        Ordinal::Nth(n) => {
            let fail = ProcessingError::AddToDate {
                unit: TimeUnit::Day,
                count: n,
                date: CivilDateTime { date: jan1, time: ClockTime { hour: 0, minute: 0, second: 0, nano: 0 } },
            };
            if n < 1 || n > year_length(base.year) {
                return Err(fail);
            }
            match date_add_days(jan1, (n - 1) as u64) {
                Some(d) => Ok(d),
                None => Err(fail),
            }
        },
    }
}

/// The first day of the 7-day chunk of `base`'s month that the ordinal names.
pub fn apply_ordinal_to_weeks_of_month(ordinal: Ordinal, base: CivilDate) -> (r: Result<CivilDate, ProcessingError>)
    requires
        base.wf(),
    ensures
        r == weeks_of_month_result(ordinal, base),
        r matches Ok(e) ==> e.wf(),
{
    let dim = month_length(base.year, base.month);
    let week: u64 = match ordinal {
        Ordinal::First => 1,
        Ordinal::Last => ((dim - 1) / 7 + 1) as u64,
        Ordinal::Nth(n) => n as u64,
    };
    let day: u64 = if week >= 1 { 1 + (week - 1) * 7 } else { 0 };
    if 1 <= day && day <= dim as u64 {
        Ok(CivilDate { year: base.year, month: base.month, day: day as u32 })
    } else {
        Err(ProcessingError::InvalidDate { year: base.year as i64, month: base.month, day })
    }
}

/// Resolves "<ordinal> <unit> of <reference>" against `now`.
pub fn parse_ordinal_time_unit_of(
    ordinal: Ordinal,
    time_unit: TimeUnit,
    datetime_reference: &DateTimeReference,
    now: CivilDateTime,
    config: ParseConfig,
) -> (r: Result<CivilDate, ProcessingError>)
    requires
        now.wf(),
    ensures
        r == ordinal_result(ordinal, time_unit, *datetime_reference, now, config),
        r matches Ok(e) ==> e.wf(),
{
    reveal(ordinal_strategy_result);
    let base = match resolve_datetime_reference(datetime_reference, now) {
        Ok(anchor) => anchor.date,
        Err(e) => {
            return Err(ProcessingError::InnerReference(Box::new(e)));
        },
    };
    let year_ref = match datetime_reference {
        DateTimeReference::RelativeTimeUnit(_, TimeUnit::Year) => true,
        DateTimeReference::TheTimeUnit(TimeUnit::Year) => true,
        _ => false,
    };
    let last_week_ref = match datetime_reference {
        DateTimeReference::RelativeTimeUnit(RelativeSpecifier::Last, TimeUnit::Week) => true,
        _ => false,
    };
    let month_ref = match datetime_reference {
        DateTimeReference::RelativeTimeUnit(_, TimeUnit::Month) => true,
        DateTimeReference::MonthYear(_, _) => true,
        _ => false,
    };
    if time_unit == TimeUnit::Day && year_ref {
        return apply_ordinal_to_years(ordinal, base);
    }
    if time_unit == TimeUnit::Day && last_week_ref {
        return apply_ordinal_to_weeks(ordinal, base, config);
    }
    if time_unit == TimeUnit::Week && month_ref {
        return apply_ordinal_to_weeks_of_month(ordinal, base);
    }
    match time_unit {
        TimeUnit::Day => apply_ordinal_to_days(ordinal, base),
        TimeUnit::Week => apply_ordinal_to_weeks(ordinal, base, config),
        TimeUnit::Month => apply_ordinal_to_months(ordinal, base),
        TimeUnit::Year => apply_ordinal_to_years(ordinal, base),
        TimeUnit::Hour | TimeUnit::Minute | TimeUnit::Second => apply_ordinal_to_subday_units(ordinal, time_unit, base),
    }
}

/// Sub-day units pick nothing finer: the anchor's date is returned as it is.
pub fn apply_ordinal_to_subday_units(ordinal: Ordinal, time_unit: TimeUnit, base: CivilDate) -> (r: Result<CivilDate, ProcessingError>)
    ensures
        r == Ok::<CivilDate, ProcessingError>(base),
{
    Ok(base)
}

} // verus!
