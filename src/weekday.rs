//! Finding a weekday relative to a date.

use vstd::prelude::*;
use crate::ast::{RelativeSpecifier, TimeUnit, Weekday};
use crate::calendar::{
    date_add_days, date_sub_days, day_number, in_date_range, shift_days, weekday_from_monday,
    weekday_index, CivilDate,
};
use crate::error::ProcessingError;

verus! {

/// The date `n` days after `now`, or the failure to reach it.
pub open spec fn days_after_now(now: CivilDate, n: int) -> Result<CivilDate, ProcessingError> {
    if in_date_range(day_number(now) + n) {
        Ok(shift_days(now, n))
    } else {
        Err(ProcessingError::AddToNow { unit: TimeUnit::Day, count: n as u32 })
    }
}

/// The date `n` days before `now`, or the failure to reach it.
pub open spec fn days_before_now(now: CivilDate, n: int) -> Result<CivilDate, ProcessingError> {
    if in_date_range(day_number(now) - n) {
        Ok(shift_days(now, -n))
    } else {
        Err(ProcessingError::SubtractFromNow { unit: TimeUnit::Day, count: n as u32 })
    }
}

/// Days forward from weekday `current` to the next `target`, 1 to 7.
pub open spec fn days_until(current: int, target: int) -> int {
    if target > current { target - current } else { 7 - current + target }
}

/// Days back from weekday `current` to the previous `target`, 1 to 7.
pub open spec fn days_since(current: int, target: int) -> int {
    if target >= current { 7 + current - target } else { current - target }
}

/// "this/next/last <weekday>" seen from `now`: `This` keeps `now` when it
/// already is that weekday; otherwise the next one strictly after `now`.
/// `Last` is always strictly before `now`.
pub open spec fn weekday_search(relative: RelativeSpecifier, target: Weekday, now: CivilDate) -> Result<CivilDate, ProcessingError> {
    let current = weekday_index(now);
    let t = target.spec_index();
    match relative {
        RelativeSpecifier::Last => days_before_now(now, days_since(current, t)),
        _ => if relative == RelativeSpecifier::This && current == t {
            Ok(now)
        } else {
            days_after_now(now, days_until(current, t))
        },
    }
}

/// Whole weeks that "this/next/last week" moves.
pub open spec fn week_shift(relative: RelativeSpecifier) -> int {
    match relative {
        RelativeSpecifier::This => 0,
        RelativeSpecifier::Next => 7,
        RelativeSpecifier::Last => -7,
    }
}

/// "<this/next/last> week's <weekday>": the Monday of `now`'s week, moved by a
/// week as `relative` says, then `target` within that week.
pub open spec fn week_weekday_search(relative: RelativeSpecifier, target: Weekday, now: CivilDate) -> Result<CivilDate, ProcessingError> {
    let offset = week_shift(relative) - weekday_index(now);
    let monday = if offset > 0 { days_after_now(now, offset) } else { days_before_now(now, -offset) };
    match monday {
        Ok(m) => weekday_search(RelativeSpecifier::This, target, m),
        Err(e) => Err(e),
    }
}

/// Finds the weekday `weekday` relative to `now`.
pub fn find_weekday_relative(relative: RelativeSpecifier, weekday: Weekday, now: CivilDate) -> (r: Result<CivilDate, ProcessingError>)
    requires
        now.wf(),
    ensures
        r == weekday_search(relative, weekday, now),
        r matches Ok(e) ==> e.wf(),
{
    let current = weekday_from_monday(now);
    let target = weekday.num_days_from_monday();
    match relative {
        RelativeSpecifier::Last => {
            let offset: u32 = if target >= current { 7 + current - target } else { current - target };
            match date_sub_days(now, offset as u64) {
                Some(d) => Ok(d),
                None => Err(ProcessingError::SubtractFromNow { unit: TimeUnit::Day, count: offset }),
            }
        },
        _ => {
            if relative == RelativeSpecifier::This && current == target {
                return Ok(now);
            }
            let offset: u32 = if target > current { target - current } else { 7 - current + target };
            match date_add_days(now, offset as u64) {
                Some(d) => Ok(d),
                None => Err(ProcessingError::AddToNow { unit: TimeUnit::Day, count: offset }),
            }
        },
    }
}

/// Finds `weekday` within the week that `relative` names, weeks beginning on Monday.
pub fn find_weekday_relative_week(relative: RelativeSpecifier, weekday: Weekday, now: CivilDate) -> (r: Result<CivilDate, ProcessingError>)
    requires
        now.wf(),
    ensures
        r == week_weekday_search(relative, weekday, now),
        r matches Ok(e) ==> e.wf(),
{
    let day_offset: i64 = -(weekday_from_monday(now) as i64);
    let week_offset: i64 = match relative {
        RelativeSpecifier::This => 0,
        RelativeSpecifier::Next => 7,
        RelativeSpecifier::Last => -7,
    };
    let offset = day_offset + week_offset;
    let monday = if offset > 0 {
        match date_add_days(now, offset as u64) {
            Some(d) => d,
            None => {
                return Err(ProcessingError::AddToNow { unit: TimeUnit::Day, count: offset as u32 });
            },
        }
    } else {
        match date_sub_days(now, (-offset) as u64) {
            Some(d) => d,
            None => {
                return Err(ProcessingError::SubtractFromNow { unit: TimeUnit::Day, count: (-offset) as u32 });
            },
        }
    };
    find_weekday_relative(RelativeSpecifier::This, weekday, monday)
}

} // verus!
