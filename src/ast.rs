//! The typed expression tree that a date expression is lowered to.

use vstd::prelude::*;

verus! {

/// Root of an expression.
#[derive(Debug)]
pub enum HumanTime {
    DateTime(DateTime),
    Date(Date),
    Time(Time),
    In(In),
    Ago(Ago),
    Now,
}

/// A date together with a time of day ("tomorrow 10:00").
#[derive(Debug)]
pub struct DateTime {
    pub date: Date,
    pub time: Time,
}

/// An ISO date `YYYY-MM-DD`, not yet checked against the calendar.
#[derive(Debug, Clone, Copy, PartialEq, Eq, Structural)]
pub struct IsoDate {
    pub year: u32,
    pub month: u32,
    pub day: u32,
}

#[derive(Debug)]
pub enum Date {
    Today,
    Tomorrow,
    Overmorrow,
    Yesterday,
    IsoDate(IsoDate),
    DayMonthYear(u32, Month, u32),
    DayMonth(u32, Month),
    RelativeWeekWeekday(RelativeSpecifier, Weekday),
    RelativeTimeUnit(RelativeSpecifier, TimeUnit),
    RelativeWeekday(RelativeSpecifier, Weekday),
    UpcomingWeekday(Weekday),
    OrdinalTimeUnitOf(Ordinal, TimeUnit, DateTimeReference),
}

/// A clock time, not yet checked for range.
#[derive(Debug, Clone, Copy, PartialEq, Eq, Structural)]
pub enum Time {
    HourMinute(u32, u32),
    HourMinuteSecond(u32, u32, u32),
}

/// "in <duration>".
#[derive(Debug)]
pub struct In(pub Duration);

/// "<duration> ago", optionally counted back from another expression.
#[derive(Debug)]
pub enum Ago {
    AgoFromNow(Duration),
    AgoFromTime(Duration, Box<HumanTime>),
}

/// Quantifiers applied one after another, in this order.
#[derive(Debug)]
pub struct Duration(pub Vec<Quantifier>);

#[derive(Debug, Clone, Copy, PartialEq, Eq, Structural)]
pub enum RelativeSpecifier {
    This,
    Next,
    Last,
}

/// A count of one time unit.
#[derive(Debug, Clone, Copy, PartialEq, Eq, Structural)]
pub enum Quantifier {
    Year(u32),
    Month(u32),
    Week(u32),
    Day(u32),
    Hour(u32),
    Minute(u32),
    Second(u32),
}

#[derive(Debug, Clone, Copy, PartialEq, Eq, Structural)]
pub enum TimeUnit {
    Year,
    Month,
    Week,
    Day,
    Hour,
    Minute,
    Second,
}

#[derive(Debug, Clone, Copy, PartialEq, Eq, Structural)]
pub enum Weekday {
    Monday,
    Tuesday,
    Wednesday,
    Thursday,
    Friday,
    Saturday,
    Sunday,
}

#[derive(Debug, Clone, Copy, PartialEq, Eq, Structural)]
pub enum Month {
    January,
    February,
    March,
    April,
    May,
    June,
    July,
    August,
    September,
    October,
    November,
    December,
}

#[derive(Debug, Clone, Copy, PartialEq, Eq, Structural)]
pub enum Ordinal {
    First,
    Last,
    Nth(u32),
}

#[derive(Debug, Clone, Copy, PartialEq, Eq, Structural)]
pub enum MonthSpec {
    Absolute(Month),
    Relative(RelativeSpecifier, Month),
    RelativeCurrent(RelativeSpecifier),
    Current,
}

#[derive(Debug, Clone, Copy, PartialEq, Eq, Structural)]
pub enum YearSpec {
    Relative(RelativeSpecifier),
    Absolute(u32),
}

/// What an ordinal is counted within ("of last month", "of 3 days ago").
#[derive(Debug)]
pub enum DateTimeReference {
    MonthYear(MonthSpec, Option<YearSpec>),
    Ago(Duration),
    RelativeTimeUnit(RelativeSpecifier, TimeUnit),
    TheTimeUnit(TimeUnit),
    Today,
    Tomorrow,
    Yesterday,
    Overmorrow,
    Now,
}

impl Weekday {
    /// Position in a Monday-first week: Monday 0 .. Sunday 6.
    pub open spec fn spec_index(self) -> int {
        match self {
            Weekday::Monday => 0,
            Weekday::Tuesday => 1,
            Weekday::Wednesday => 2,
            Weekday::Thursday => 3,
            Weekday::Friday => 4,
            Weekday::Saturday => 5,
            Weekday::Sunday => 6,
        }
    }

    pub fn num_days_from_monday(&self) -> (r: u32)
        ensures
            r == self.spec_index(),
    {
        match self {
            Weekday::Monday => 0,
            Weekday::Tuesday => 1,
            Weekday::Wednesday => 2,
            Weekday::Thursday => 3,
            Weekday::Friday => 4,
            Weekday::Saturday => 5,
            Weekday::Sunday => 6,
        }
    }
}

impl Month {
    /// Month number, January 1 .. December 12.
    pub open spec fn spec_number(self) -> int {
        match self {
            Month::January => 1,
            Month::February => 2,
            Month::March => 3,
            Month::April => 4,
            Month::May => 5,
            Month::June => 6,
            Month::July => 7,
            Month::August => 8,
            Month::September => 9,
            Month::October => 10,
            Month::November => 11,
            Month::December => 12,
        }
    }

    pub fn number_from_month(&self) -> (r: u32)
        ensures
            r == self.spec_number(),
    {
        match self {
            Month::January => 1,
            Month::February => 2,
            Month::March => 3,
            Month::April => 4,
            Month::May => 5,
            Month::June => 6,
            Month::July => 7,
            Month::August => 8,
            Month::September => 9,
            Month::October => 10,
            Month::November => 11,
            Month::December => 12,
        }
    }
}

} // verus!
