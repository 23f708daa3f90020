//! Proleptic Gregorian calendar model and the calendar operations taken from chrono.

use vstd::prelude::*;
use chrono::Datelike;

verus! {

/// Smallest year that the calendar backend represents.
pub const MIN_YEAR: i32 = -262143;

/// Largest year that the calendar backend represents.
pub const MAX_YEAR: i32 = 262142;

pub open spec fn is_leap_year(y: int) -> bool {
    y % 4 == 0 && (y % 100 != 0 || y % 400 == 0)
}

pub open spec fn days_in_month(y: int, m: int) -> int {
    if m == 2 {
        if is_leap_year(y) { 29 } else { 28 }
    } else if m == 4 || m == 6 || m == 9 || m == 11 {
        30
    } else {
        31
    }
}

pub open spec fn days_in_year(y: int) -> int {
    if is_leap_year(y) { 366 } else { 365 }
}

/// Whether year, month and day name a day that exists within the representable years.
pub open spec fn valid_ymd(y: int, m: int, d: int) -> bool {
    &&& MIN_YEAR <= y <= MAX_YEAR
    &&& 1 <= m <= 12
    &&& 1 <= d <= days_in_month(y, m)
}

/// Days in the years before year `y`, counted from 0001-01-01.
pub open spec fn days_before_year(y: int) -> int {
    365 * (y - 1) + (y - 1) / 4 - (y - 1) / 100 + (y - 1) / 400
}

/// Days in the months of year `y` before month `m`.
pub open spec fn days_before_month(y: int, m: int) -> int {
    let leap: int = if is_leap_year(y) { 1 } else { 0 };
    if m <= 1 { 0 }
    else if m == 2 { 31 }
    else if m == 3 { 59 + leap }
    else if m == 4 { 90 + leap }
    else if m == 5 { 120 + leap }
    else if m == 6 { 151 + leap }
    else if m == 7 { 181 + leap }
    else if m == 8 { 212 + leap }
    else if m == 9 { 243 + leap }
    else if m == 10 { 273 + leap }
    else if m == 11 { 304 + leap }
    else { 334 + leap }
}

/// A calendar day, proleptic Gregorian, without a time zone.
#[derive(Debug, Clone, Copy, PartialEq, Eq, Structural)]
pub struct CivilDate {
    pub year: i32,
    pub month: u32,
    pub day: u32,
}

/// A time of day with nanoseconds (leap seconds are not represented).
#[derive(Debug, Clone, Copy, PartialEq, Eq, Structural)]
pub struct ClockTime {
    pub hour: u32,
    pub minute: u32,
    pub second: u32,
    pub nano: u32,
}

/// A calendar day together with a time of day, without a time zone.
#[derive(Debug, Clone, Copy, PartialEq, Eq, Structural)]
pub struct CivilDateTime {
    pub date: CivilDate,
    pub time: ClockTime,
}

impl CivilDate {
    pub open spec fn wf(self) -> bool {
        valid_ymd(self.year as int, self.month as int, self.day as int)
    }
}

impl ClockTime {
    pub open spec fn wf(self) -> bool {
        self.hour < 24 && self.minute < 60 && self.second < 60 && self.nano < 1_000_000_000
    }
}

impl CivilDateTime {
    pub open spec fn wf(self) -> bool {
        self.date.wf() && self.time.wf()
    }
}

/// Ordinal number of a day, 0001-01-01 being day 1.
pub open spec fn day_number(d: CivilDate) -> int {
    days_before_year(d.year as int) + days_before_month(d.year as int, d.month as int) + d.day
}

pub open spec fn first_day() -> CivilDate {
    CivilDate { year: MIN_YEAR, month: 1, day: 1 }
}

pub open spec fn last_day() -> CivilDate {
    CivilDate { year: MAX_YEAR, month: 12, day: 31 }
}

/// Whether a day number falls within the representable dates.
pub open spec fn in_date_range(n: int) -> bool {
    day_number(first_day()) <= n <= day_number(last_day())
}

/// Day of the week, Monday being 0 and Sunday 6 (0001-01-01 was a Monday).
pub open spec fn weekday_index(d: CivilDate) -> int {
    (day_number(d) - 1) % 7
}

/// The date `n` days after `d` (before it, for negative `n`).
pub open spec fn shift_days(d: CivilDate, n: int) -> CivilDate {
    choose|e: CivilDate| e.wf() && day_number(e) == day_number(d) + n
}

pub open spec fn second_of_day(t: ClockTime) -> int {
    t.hour * 3600 + t.minute * 60 + t.second
}

/// Whole seconds since the start of day 0 (0000-12-31).
pub open spec fn instant(dt: CivilDateTime) -> int {
    day_number(dt.date) * 86400 + second_of_day(dt.time)
}

/// The time of day `s` seconds after midnight, keeping the nanoseconds.
pub open spec fn time_at_second(s: int, nano: u32) -> ClockTime {
    ClockTime { hour: (s / 3600) as u32, minute: ((s % 3600) / 60) as u32, second: (s % 60) as u32, nano }
}

/// Whether shifting `dt` by `k` seconds stays within the representable dates.
pub open spec fn seconds_shift_in_range(dt: CivilDateTime, k: int) -> bool {
    in_date_range(day_number(dt.date) + (second_of_day(dt.time) + k) / 86400)
}

/// `dt` moved by `k` seconds (backwards for negative `k`).
pub open spec fn shift_seconds(dt: CivilDateTime, k: int) -> CivilDateTime {
    let s = second_of_day(dt.time) + k;
    CivilDateTime {
        date: shift_days(dt.date, s / 86400),
        time: time_at_second(s % 86400, dt.time.nano),
    }
}

/// The date `delta` calendar months away from `d`, the day clamped to the
/// length of the month reached; `None` past the representable years.
pub open spec fn shift_months(d: CivilDate, delta: int) -> Option<CivilDate> {
    let total = d.year * 12 + (d.month - 1) + delta;
    let y = total / 12;
    let m = total % 12 + 1;
    let dim = days_in_month(y, m);
    let day = if d.day <= dim { d.day as int } else { dim };
    if MIN_YEAR <= y <= MAX_YEAR {
        Some(CivilDate { year: y as i32, month: m as u32, day: day as u32 })
    } else {
        None
    }
}

pub open spec fn ymd_date(y: int, m: int, d: int) -> Option<CivilDate> {
    if valid_ymd(y, m, d) {
        Some(CivilDate { year: y as i32, month: m as u32, day: d as u32 })
    } else {
        None
    }
}

/// Relies on chrono's `NaiveDate::from_ymd_opt`: a date exactly when year,
/// month and day exist in the proleptic Gregorian calendar within
/// `MIN_YEAR..=MAX_YEAR`.
#[verifier::external_body]
pub fn date_from_ymd(year: i32, month: u32, day: u32) -> (r: Option<CivilDate>)
    ensures
        r == ymd_date(year as int, month as int, day as int),
{
    chrono::NaiveDate::from_ymd_opt(year, month, day).map(
        |d| CivilDate { year: d.year(), month: d.month(), day: d.day() },
    )
}

/// Relies on chrono's `NaiveDate::checked_add_days`: the date `n` days later,
/// or `None` when it falls outside the representable dates.
#[verifier::external_body]
pub(crate) fn date_add_days(d: CivilDate, n: u64) -> (r: Option<CivilDate>)
    requires
        d.wf(),
    ensures
        r is Some <==> in_date_range(day_number(d) + n),
        r matches Some(e) ==> e.wf() && day_number(e) == day_number(d) + n,
        r matches Some(e) ==> e == shift_days(d, n as int),
{
    let date = chrono::NaiveDate::from_ymd_opt(d.year, d.month, d.day).unwrap();
    date.checked_add_days(chrono::Days::new(n)).map(
        |e| CivilDate { year: e.year(), month: e.month(), day: e.day() },
    )
}

/// Relies on chrono's `NaiveDate::checked_sub_days`: the date `n` days earlier,
/// or `None` when it falls outside the representable dates.
#[verifier::external_body]
pub(crate) fn date_sub_days(d: CivilDate, n: u64) -> (r: Option<CivilDate>)
    requires
        d.wf(),
    ensures
        r is Some <==> in_date_range(day_number(d) - n),
        r matches Some(e) ==> e.wf() && day_number(e) == day_number(d) - n,
        r matches Some(e) ==> e == shift_days(d, -(n as int)),
{
    let date = chrono::NaiveDate::from_ymd_opt(d.year, d.month, d.day).unwrap();
    date.checked_sub_days(chrono::Days::new(n)).map(
        |e| CivilDate { year: e.year(), month: e.month(), day: e.day() },
    )
}

/// Relies on chrono's `NaiveDate::checked_add_months`: month arithmetic that
/// clamps the day to the end of the month reached.
#[verifier::external_body]
pub(crate) fn date_add_months(d: CivilDate, n: u32) -> (r: Option<CivilDate>)
    requires
        d.wf(),
    ensures
        r == shift_months(d, n as int),
{
    let date = chrono::NaiveDate::from_ymd_opt(d.year, d.month, d.day).unwrap();
    date.checked_add_months(chrono::Months::new(n)).map(
        |e| CivilDate { year: e.year(), month: e.month(), day: e.day() },
    )
}

/// Relies on chrono's `NaiveDate::checked_sub_months`: month arithmetic that
/// clamps the day to the end of the month reached.
#[verifier::external_body]
pub(crate) fn date_sub_months(d: CivilDate, n: u32) -> (r: Option<CivilDate>)
    requires
        d.wf(),
    ensures
        r == shift_months(d, -(n as int)),
{
    let date = chrono::NaiveDate::from_ymd_opt(d.year, d.month, d.day).unwrap();
    date.checked_sub_months(chrono::Months::new(n)).map(
        |e| CivilDate { year: e.year(), month: e.month(), day: e.day() },
    )
}

/// Relies on chrono's `Datelike::weekday` with `Weekday::num_days_from_monday`:
/// Monday is 0, Sunday 6.
#[verifier::external_body]
pub(crate) fn weekday_from_monday(d: CivilDate) -> (r: u32)
    requires
        d.wf(),
    ensures
        r == weekday_index(d),
{
    chrono::NaiveDate::from_ymd_opt(d.year, d.month, d.day).unwrap().weekday().num_days_from_monday()
}

/// Relies on chrono's `NaiveDateTime::checked_add_signed` with a whole number
/// of seconds: exact instant arithmetic, `None` outside the representable dates.
#[verifier::external_body]
pub(crate) fn datetime_add_seconds(dt: CivilDateTime, k: i64) -> (r: Option<CivilDateTime>)
    requires
        dt.wf(),
        -1_000_000_000_000_000 <= k <= 1_000_000_000_000_000,
    ensures
        r is Some <==> seconds_shift_in_range(dt, k as int),
        r matches Some(e) ==> e.wf() && instant(e) == instant(dt) + k && e.time.nano == dt.time.nano,
        r matches Some(e) ==> e == shift_seconds(dt, k as int),
{
    let date = chrono::NaiveDate::from_ymd_opt(dt.date.year, dt.date.month, dt.date.day).unwrap();
    let t = dt.time;
    let time = chrono::NaiveTime::from_hms_nano_opt(t.hour, t.minute, t.second, t.nano).unwrap();
    let moved = chrono::NaiveDateTime::new(date, time).checked_add_signed(chrono::TimeDelta::seconds(k));
    moved.map(|e| CivilDateTime {
        date: CivilDate { year: e.year(), month: e.month(), day: e.day() },
        time: ClockTime { hour: chrono::Timelike::hour(&e), minute: chrono::Timelike::minute(&e), second: chrono::Timelike::second(&e), nano: chrono::Timelike::nanosecond(&e) },
    })
}

} // verus!
