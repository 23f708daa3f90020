//! Resolution of a whole expression: dates, times and their combinations.

use vstd::prelude::*;
use crate::ast::{Ago, Date, DateTime, HumanTime, In, IsoDate, Month, RelativeSpecifier, Time};
use crate::calendar::{date_from_ymd, ymd_date, CivilDate, CivilDateTime, ClockTime, MAX_YEAR, MIN_YEAR};
use crate::duration::{apply_duration, duration_result, relative_date_time_unit, relative_unit_result, Direction};
use crate::error::{ParseConfig, ParseError, ParseResult, ProcessingError};
use crate::reference::{ordinal_result, parse_ordinal_time_unit_of};
use crate::weekday::{
    days_after_now, days_before_now, find_weekday_relative, find_weekday_relative_week,
    week_weekday_search, weekday_search,
};
use crate::calendar::{date_add_days, date_sub_days};
use crate::ast::TimeUnit;

verus! {

/// The date that year, month and day name, or the failure citing them.
pub open spec fn calendar_date_result(y: int, m: int, d: int) -> Result<CivilDate, ProcessingError> {
    match ymd_date(y, m, d) {
        Some(x) => Ok(x),
        None => Err(ProcessingError::InvalidDate { year: y as i64, month: m as u32, day: d as u64 }),
    }
}

/// The date that a date expression denotes, seen from `now`.
#[verifier::opaque]
pub open spec fn date_result(date: Date, now: CivilDateTime, config: ParseConfig) -> Result<CivilDate, ProcessingError> {
    match date {
        Date::Today => Ok(now.date),
        Date::Tomorrow => days_after_now(now.date, 1),
        Date::Overmorrow => days_after_now(now.date, 2),
        Date::Yesterday => days_before_now(now.date, 1),
        Date::IsoDate(iso) => calendar_date_result(iso.year as int, iso.month as int, iso.day as int),
        Date::DayMonthYear(d, m, y) => calendar_date_result(y as int, m.spec_number(), d as int),
        Date::DayMonth(d, m) => calendar_date_result(now.date.year as int, m.spec_number(), d as int),
        Date::RelativeWeekWeekday(relative, wd) => week_weekday_search(relative, wd, now.date),
        Date::RelativeWeekday(relative, wd) => weekday_search(relative, wd, now.date),
        Date::RelativeTimeUnit(relative, unit) => match relative_unit_result(relative, unit, now) {
            Ok(e) => Ok(e.date),
            Err(e) => Err(e),
        },
        Date::UpcomingWeekday(wd) => weekday_search(RelativeSpecifier::Next, wd, now.date),
        Date::OrdinalTimeUnitOf(ordinal, unit, reference) => ordinal_result(ordinal, unit, reference, now, config),
    }
}

/// The time of day that a clock time names, or the failure citing it.
pub open spec fn time_result(time: Time) -> Result<ClockTime, ProcessingError> {
    match time {
        Time::HourMinute(h, m) => if h < 24 && m < 60 {
            Ok(ClockTime { hour: h, minute: m, second: 0, nano: 0 })
        } else {
            Err(ProcessingError::TimeHourMinute { hour: h, minute: m })
        },
        Time::HourMinuteSecond(h, m, s) => if h < 24 && m < 60 && s < 60 {
            Ok(ClockTime { hour: h, minute: m, second: s, nano: 0 })
        } else {
            Err(ProcessingError::TimeHourMinuteSecond { hour: h, minute: m, second: s })
        },
    }
}

pub open spec fn result_wf(v: ParseResult) -> bool {
    match v {
        ParseResult::DateTime(dt) => dt.wf(),
        ParseResult::Date(d) => d.wf(),
        ParseResult::Time(t) => t.wf(),
    }
}

/// A nested result as a date-time: a date takes `now`'s time of day, a time `now`'s date.
pub open spec fn nest_anchor(v: ParseResult, now: CivilDateTime) -> CivilDateTime {
    match v {
        ParseResult::DateTime(dt) => dt,
        ParseResult::Date(d) => CivilDateTime { date: d, time: now.time },
        ParseResult::Time(t) => CivilDateTime { date: now.date, time: t },
    }
}

/// The value an expression resolves to, or `None` when it fails.
pub open spec fn human_time_value(ht: HumanTime, now: CivilDateTime, config: ParseConfig) -> Option<ParseResult>
    decreases ht,
{
    match ht {
        HumanTime::DateTime(dt) => match (date_result(dt.date, now, config), time_result(dt.time)) {
            (Ok(d), Ok(t)) => Some(ParseResult::DateTime(CivilDateTime { date: d, time: t })),
            _ => None,
        },
        HumanTime::Date(d) => match date_result(d, now, config) {
            Ok(x) => Some(ParseResult::Date(x)),
            Err(_) => None,
        },
        HumanTime::Time(t) => match time_result(t) {
            Ok(x) => Some(ParseResult::Time(x)),
            Err(_) => None,
        },
        HumanTime::In(i) => match duration_result(i.0.0@, now, Direction::Forwards) {
            Ok(x) => Some(ParseResult::DateTime(x)),
            Err(_) => None,
        },
        HumanTime::Ago(Ago::AgoFromNow(d)) => match duration_result(d.0@, now, Direction::Backwards) {
            Ok(x) => Some(ParseResult::DateTime(x)),
            Err(_) => None,
        },
        HumanTime::Ago(Ago::AgoFromTime(d, inner)) => match human_time_value(*inner, now, config) {
            Some(v) => match duration_result(d.0@, nest_anchor(v, now), Direction::Backwards) {
                Ok(x) => Some(ParseResult::DateTime(x)),
                Err(_) => None,
            },
            None => None,
        },
        HumanTime::Now => Some(ParseResult::DateTime(now)),
    }
}

/// `r` is a failure listing exactly `errs`.
pub open spec fn fails_with(r: Result<ParseResult, ParseError>, errs: Seq<ProcessingError>) -> bool {
    r matches Err(ParseError::ProccessingErrors(v)) && v@ == errs
}

/// `r` is a value `v`, or the failure holding the one error `e`.
pub open spec fn single_outcome<T>(r: Result<ParseResult, ParseError>, res: Result<T, ProcessingError>, v: ParseResult) -> bool {
    match res {
        Ok(_) => r == Ok::<ParseResult, ParseError>(v),
        Err(e) => fails_with(r, seq![e]),
    }
}

/// What resolving `ht` returns: its value, or the list of every failure met.
pub open spec fn human_time_outcome(ht: HumanTime, now: CivilDateTime, config: ParseConfig, r: Result<ParseResult, ParseError>) -> bool
    decreases ht,
{
    match ht {
        HumanTime::DateTime(dt) => match (date_result(dt.date, now, config), time_result(dt.time)) {
            (Ok(d), Ok(t)) => r == Ok::<ParseResult, ParseError>(ParseResult::DateTime(CivilDateTime { date: d, time: t })),
            (Ok(_), Err(te)) => fails_with(r, seq![te]),
            (Err(de), Ok(_)) => fails_with(r, seq![de]),
            (Err(de), Err(te)) => fails_with(r, seq![de, te]),
        },
        HumanTime::Date(d) => {
            let res = date_result(d, now, config);
            single_outcome(r, res, ParseResult::Date(res->Ok_0))
        },
        HumanTime::Time(t) => {
            let res = time_result(t);
            single_outcome(r, res, ParseResult::Time(res->Ok_0))
        },
        HumanTime::In(i) => {
            let res = duration_result(i.0.0@, now, Direction::Forwards);
            single_outcome(r, res, ParseResult::DateTime(res->Ok_0))
        },
        HumanTime::Ago(Ago::AgoFromNow(d)) => {
            let res = duration_result(d.0@, now, Direction::Backwards);
            single_outcome(r, res, ParseResult::DateTime(res->Ok_0))
        },
        HumanTime::Ago(Ago::AgoFromTime(d, inner)) => match human_time_value(*inner, now, config) {
            Some(v) => {
                let res = duration_result(d.0@, nest_anchor(v, now), Direction::Backwards);
                single_outcome(r, res, ParseResult::DateTime(res->Ok_0))
            },
            None => match r {
                Err(ParseError::ProccessingErrors(errs)) => errs@.len() == 1 && match errs@[0] {
                    ProcessingError::InnerHumanTimeParse(b) => human_time_outcome(*inner, now, config, Err(*b)),
                    _ => false,
                },
                _ => false,
            },
        },
        HumanTime::Now => r == Ok::<ParseResult, ParseError>(ParseResult::DateTime(now)),
    }
}

/// A date with a time of day: both halves resolved, or every failure listed.
pub open spec fn date_time_outcome(date: Date, time: Time, now: CivilDateTime, config: ParseConfig, r: Result<CivilDateTime, ParseError>) -> bool {
    match (date_result(date, now, config), time_result(time)) {
        (Ok(d), Ok(t)) => r == Ok::<CivilDateTime, ParseError>(CivilDateTime { date: d, time: t }),
        (Ok(_), Err(te)) => r matches Err(ParseError::ProccessingErrors(v)) && v@ == seq![te],
        (Err(de), Ok(_)) => r matches Err(ParseError::ProccessingErrors(v)) && v@ == seq![de],
        (Err(de), Err(te)) => r matches Err(ParseError::ProccessingErrors(v)) && v@ == seq![de, te],
    }
}

/// Checks an ISO date against the calendar.
pub fn parse_iso_date(iso_date: IsoDate) -> (r: Result<CivilDate, ProcessingError>)
    ensures
        r == calendar_date_result(iso_date.year as int, iso_date.month as int, iso_date.day as int),
        r matches Ok(e) ==> e.wf(),
{
    check_date(iso_date.year as i64, iso_date.month, iso_date.day)
}

/// Checks day, month name and year against the calendar.
pub fn parse_day_month_year(day: u32, month: Month, year: i64) -> (r: Result<CivilDate, ProcessingError>)
    ensures
        r == calendar_date_result(year as int, month.spec_number(), day as int),
        r matches Ok(e) ==> e.wf(),
{
    check_date(year, month.number_from_month(), day)
}

fn check_date(year: i64, month: u32, day: u32) -> (r: Result<CivilDate, ProcessingError>)
    ensures
        r == calendar_date_result(year as int, month as int, day as int),
        r matches Ok(e) ==> e.wf(),
{
    let found = if MIN_YEAR as i64 <= year && year <= MAX_YEAR as i64 {
        date_from_ymd(year as i32, month, day)
    } else {
        None
    };
    match found {
        Some(d) => Ok(d),
        None => Err(ProcessingError::InvalidDate { year, month, day: day as u64 }),
    }
}

/// Checks a clock time for range.
pub fn parse_time(time: Time) -> (r: Result<ClockTime, ProcessingError>)
    ensures
        r == time_result(time),
        r matches Ok(t) ==> t.wf(),
{
    match time {
        Time::HourMinute(hour, minute) => if hour < 24 && minute < 60 {
            Ok(ClockTime { hour, minute, second: 0, nano: 0 })
        } else {
            Err(ProcessingError::TimeHourMinute { hour, minute })
        },
        Time::HourMinuteSecond(hour, minute, second) => if hour < 24 && minute < 60 && second < 60 {
            Ok(ClockTime { hour, minute, second, nano: 0 })
        } else {
            Err(ProcessingError::TimeHourMinuteSecond { hour, minute, second })
        },
    }
}

/// Resolves a date expression against `now`.
pub fn parse_date(date: &Date, now: CivilDateTime, config: ParseConfig) -> (r: Result<CivilDate, ProcessingError>)
    requires
        now.wf(),
    ensures
        r == date_result(*date, now, config),
        r matches Ok(e) ==> e.wf(),
{
    reveal(date_result);
    match date {
        Date::Today => Ok(now.date),
        Date::Tomorrow => match date_add_days(now.date, 1) {
            Some(d) => Ok(d),
            None => Err(ProcessingError::AddToNow { unit: TimeUnit::Day, count: 1 }),
        },
        Date::Overmorrow => match date_add_days(now.date, 2) {
            Some(d) => Ok(d),
            None => Err(ProcessingError::AddToNow { unit: TimeUnit::Day, count: 2 }),
        },
        Date::Yesterday => match date_sub_days(now.date, 1) {
            Some(d) => Ok(d),
            None => Err(ProcessingError::SubtractFromNow { unit: TimeUnit::Day, count: 1 }),
        },
        Date::IsoDate(iso) => parse_iso_date(*iso),
        Date::DayMonthYear(day, month, year) => parse_day_month_year(*day, *month, *year as i64),
        Date::DayMonth(day, month) => parse_day_month_year(*day, *month, now.date.year as i64),
        Date::RelativeWeekWeekday(relative, weekday) => find_weekday_relative_week(*relative, *weekday, now.date),
        Date::RelativeWeekday(relative, weekday) => find_weekday_relative(*relative, *weekday, now.date),
        Date::RelativeTimeUnit(relative, time_unit) => match relative_date_time_unit(*relative, *time_unit, now) {
            Ok(e) => Ok(e.date),
            Err(e) => Err(e),
        },
        Date::UpcomingWeekday(weekday) => find_weekday_relative(RelativeSpecifier::Next, *weekday, now.date),
        Date::OrdinalTimeUnitOf(ordinal, time_unit, reference) =>
            parse_ordinal_time_unit_of(*ordinal, *time_unit, reference, now, config),
    }
}

fn one_error(e: ProcessingError) -> (r: Vec<ProcessingError>)
    ensures
        r@ == seq![e],
{
    let mut v = Vec::new();
    v.push(e);
    assert(v@ =~= seq![e]);
    v
}

/// Resolves a date with a time of day; when both halves fail, both failures are listed.
pub fn parse_date_time(date_time: &DateTime, now: CivilDateTime, config: ParseConfig) -> (r: Result<CivilDateTime, ParseError>)
    requires
        now.wf(),
    ensures
        date_time_outcome(date_time.date, date_time.time, now, config, r),
        r matches Ok(v) ==> v.wf(),
{
    let date = parse_date(&date_time.date, now, config);
    let time = parse_time(date_time.time);
    match (date, time) {
        (Ok(date), Ok(time)) => Ok(CivilDateTime { date, time }),
        (Ok(_), Err(time_error)) => Err(ParseError::ProccessingErrors(one_error(time_error))),
        (Err(date_error), Ok(_)) => Err(ParseError::ProccessingErrors(one_error(date_error))),
        (Err(date_error), Err(time_error)) => {
            let mut errors = one_error(date_error);
            errors.push(time_error);
            assert(errors@ =~= seq![date_error, time_error]);
            Err(ParseError::ProccessingErrors(errors))
        },
    }
}

/// Resolves "in <duration>": the duration applied forwards from `now`.
pub fn parse_in(in_ast: &In, now: CivilDateTime) -> (r: Result<CivilDateTime, ProcessingError>)
    requires
        now.wf(),
    ensures
        r == duration_result(in_ast.0.0@, now, Direction::Forwards),
        r matches Ok(e) ==> e.wf(),
{
    apply_duration(&in_ast.0, now, Direction::Forwards)
}

/// Resolves an expression against `now`: its value, or every failure met.
pub fn parse_human_time(parsed: &HumanTime, now: CivilDateTime, config: ParseConfig) -> (r: Result<ParseResult, ParseError>)
    requires
        now.wf(),
    ensures
        human_time_outcome(*parsed, now, config, r),
        r matches Ok(v) ==> Some(v) == human_time_value(*parsed, now, config) && result_wf(v),
        r is Err ==> human_time_value(*parsed, now, config) is None,
    decreases parsed,
{
    match parsed {
        HumanTime::DateTime(date_time) => match parse_date_time(date_time, now, config) {
            Ok(dt) => Ok(ParseResult::DateTime(dt)),
            Err(e) => Err(e),
        },
        HumanTime::Date(date) => match parse_date(date, now, config) {
            Ok(d) => Ok(ParseResult::Date(d)),
            Err(e) => Err(ParseError::ProccessingErrors(one_error(e))),
        },
        HumanTime::Time(time) => match parse_time(*time) {
            Ok(t) => Ok(ParseResult::Time(t)),
            Err(e) => Err(ParseError::ProccessingErrors(one_error(e))),
        },
        HumanTime::In(in_ast) => match parse_in(in_ast, now) {
            Ok(dt) => Ok(ParseResult::DateTime(dt)),
            Err(e) => Err(ParseError::ProccessingErrors(one_error(e))),
        },
        HumanTime::Ago(Ago::AgoFromNow(duration)) => match apply_duration(duration, now, Direction::Backwards) {
            Ok(dt) => Ok(ParseResult::DateTime(dt)),
            Err(e) => Err(ParseError::ProccessingErrors(one_error(e))),
        },
        HumanTime::Ago(Ago::AgoFromTime(duration, inner)) => {
            let anchor = match parse_human_time(inner, now, config) {
                Ok(ParseResult::DateTime(dt)) => dt,
                Ok(ParseResult::Date(date)) => CivilDateTime { date, time: now.time },
                Ok(ParseResult::Time(time)) => CivilDateTime { date: now.date, time },
                Err(e) => {
                    return Err(ParseError::ProccessingErrors(one_error(ProcessingError::InnerHumanTimeParse(Box::new(e)))));
                },
            };
            match apply_duration(duration, anchor, Direction::Backwards) {
                Ok(dt) => Ok(ParseResult::DateTime(dt)),
                Err(e) => Err(ParseError::ProccessingErrors(one_error(e))),
            }
        },
        HumanTime::Now => Ok(ParseResult::DateTime(now)),
    }
}

} // verus!
