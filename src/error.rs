//! Outcomes of resolving an expression: values, failures and configuration.

use vstd::prelude::*;
use crate::ast::TimeUnit;
use crate::calendar::{CivilDate, CivilDateTime, ClockTime};

verus! {

/// Which day begins a week in ordinal week arithmetic.
#[derive(Debug, Clone, Copy, PartialEq, Eq, Structural)]
pub enum WeekStartDay {
    Sunday,
    Monday,
}

#[derive(Debug, Clone, Copy, PartialEq, Eq, Structural)]
pub struct ParseConfig {
    pub week_start_day: WeekStartDay,
}

impl Default for ParseConfig {
    fn default() -> (r: Self)
        ensures
            r.week_start_day == WeekStartDay::Sunday,
    {
        ParseConfig { week_start_day: WeekStartDay::Sunday }
    }
}

#[derive(Debug)]
pub enum ParseError {
    /// The text matched no known form.
    InvalidFormat,
    /// The expression was understood but could not be resolved.
    ProccessingErrors(Vec<ProcessingError>),
    InternalError(InternalError),
}

#[derive(Debug, Clone, Copy, PartialEq, Eq, Structural)]
pub enum InternalError {
    FailedToBuildAst,
}

#[derive(Debug)]
pub enum ProcessingError {
    TimeHourMinute { hour: u32, minute: u32 },
    TimeHourMinuteSecond { hour: u32, minute: u32, second: u32 },
    AddToNow { unit: TimeUnit, count: u32 },
    SubtractFromNow { unit: TimeUnit, count: u32 },
    SubtractFromDate { unit: TimeUnit, count: u32, date: CivilDateTime },
    AddToDate { unit: TimeUnit, count: u32, date: CivilDateTime },
    /// Year, month and day that do not form a date.
    InvalidDate { year: i64, month: u32, day: u64 },
    /// A nested expression that could not be resolved.
    InnerHumanTimeParse(Box<ParseError>),
    /// The anchor of an ordinal expression could not be resolved.
    InnerReference(Box<ProcessingError>),
}

/// A resolved expression: a date with a time, a date, or a time of day.
#[derive(Debug, Clone, Copy, PartialEq, Eq, Structural)]
pub enum ParseResult {
    DateTime(CivilDateTime),
    Date(CivilDate),
    Time(ClockTime),
}

} // verus!
