use chrono::Datelike;
use human_date_parser::ast::{
    Ago, Date, DateTime, DateTimeReference, Duration, HumanTime, In, IsoDate, Month, MonthSpec,
    Ordinal, Quantifier, RelativeSpecifier, Time, TimeUnit, Weekday, YearSpec,
};
use human_date_parser::calendar::{CivilDate, CivilDateTime, ClockTime};
use human_date_parser::dispatch::{parse_date, parse_human_time};
use human_date_parser::duration::{apply_duration, Direction};
use human_date_parser::error::{ParseConfig, ParseError, ParseResult, ProcessingError, WeekStartDay};

fn date(year: i32, month: u32, day: u32) -> CivilDate {
    CivilDate { year, month, day }
}

fn at(year: i32, month: u32, day: u32, hour: u32, minute: u32, second: u32) -> CivilDateTime {
    CivilDateTime { date: date(year, month, day), time: ClockTime { hour, minute, second, nano: 0 } }
}

fn monday_noon() -> CivilDateTime {
    at(2024, 1, 15, 12, 0, 0)
}

fn friday_noon() -> CivilDateTime {
    at(2024, 1, 19, 12, 0, 0)
}

fn sunday() -> ParseConfig {
    ParseConfig::default()
}

fn monday_start() -> ParseConfig {
    ParseConfig { week_start_day: WeekStartDay::Monday }
}

fn resolve(ht: HumanTime, now: CivilDateTime) -> Result<ParseResult, ParseError> {
    parse_human_time(&ht, now, sunday())
}

fn date_of(d: Date, now: CivilDateTime, config: ParseConfig) -> CivilDate {
    match parse_human_time(&HumanTime::Date(d), now, config) {
        Ok(ParseResult::Date(x)) => x,
        other => panic!("expected a date, got {:?}", other),
    }
}

fn single_error(r: Result<ParseResult, ParseError>) -> ProcessingError {
    match r {
        Err(ParseError::ProccessingErrors(mut v)) => {
            assert_eq!(v.len(), 1);
            v.remove(0)
        }
        other => panic!("expected one processing error, got {:?}", other),
    }
}

fn ordinal_of(o: Ordinal, unit: TimeUnit, reference: DateTimeReference) -> Date {
    Date::OrdinalTimeUnitOf(o, unit, reference)
}

#[test]
fn scenario_next_friday_from_monday() {
    let d = date_of(Date::RelativeWeekday(RelativeSpecifier::Next, Weekday::Friday), monday_noon(), sunday());
    assert_eq!(d, date(2024, 1, 19));
}

#[test]
fn scenario_last_friday_from_monday() {
    let d = date_of(Date::RelativeWeekday(RelativeSpecifier::Last, Weekday::Friday), monday_noon(), sunday());
    assert_eq!(d, date(2024, 1, 12));
}

#[test]
fn scenario_in_three_days() {
    let r = resolve(HumanTime::In(In(Duration(vec![Quantifier::Day(3)]))), monday_noon());
    assert!(matches!(r, Ok(ParseResult::DateTime(dt)) if dt == at(2024, 1, 18, 12, 0, 0)));
}

#[test]
fn scenario_two_days_ago() {
    let r = resolve(HumanTime::Ago(Ago::AgoFromNow(Duration(vec![Quantifier::Day(2)]))), monday_noon());
    assert!(matches!(r, Ok(ParseResult::DateTime(dt)) if dt == at(2024, 1, 13, 12, 0, 0)));
}

#[test]
fn scenario_first_day_of_last_week() {
    let reference = DateTimeReference::RelativeTimeUnit(RelativeSpecifier::Last, TimeUnit::Week);
    let d = date_of(ordinal_of(Ordinal::First, TimeUnit::Day, reference), monday_noon(), sunday());
    assert_eq!(d, date(2024, 1, 7));
}

#[test]
fn first_day_of_last_week_depends_on_week_start() {
    let mk = || ordinal_of(Ordinal::First, TimeUnit::Day, DateTimeReference::RelativeTimeUnit(RelativeSpecifier::Last, TimeUnit::Week));
    let with_sunday = date_of(mk(), monday_noon(), sunday());
    let with_monday = date_of(mk(), monday_noon(), monday_start());
    assert_eq!(with_sunday, date(2024, 1, 7));
    assert_eq!(with_monday, date(2024, 1, 8));
    assert_ne!(with_sunday, with_monday);
}

#[test]
fn next_friday_on_a_friday_is_a_week_later() {
    let d = date_of(Date::RelativeWeekday(RelativeSpecifier::Next, Weekday::Friday), friday_noon(), sunday());
    assert_eq!(d, date(2024, 1, 26));
}

#[test]
fn last_friday_on_a_friday_is_a_week_earlier() {
    let d = date_of(Date::RelativeWeekday(RelativeSpecifier::Last, Weekday::Friday), friday_noon(), sunday());
    assert_eq!(d, date(2024, 1, 12));
}

#[test]
fn this_friday_on_a_friday_is_today() {
    let d = date_of(Date::RelativeWeekday(RelativeSpecifier::This, Weekday::Friday), friday_noon(), sunday());
    assert_eq!(d, date(2024, 1, 19));
}

#[test]
fn bare_weekday_is_the_next_one() {
    let d = date_of(Date::UpcomingWeekday(Weekday::Monday), monday_noon(), sunday());
    assert_eq!(d, date(2024, 1, 22));
}

#[test]
fn weekday_of_next_week_is_monday_anchored() {
    let d = date_of(Date::RelativeWeekWeekday(RelativeSpecifier::Next, Weekday::Sunday), friday_noon(), sunday());
    assert_eq!(d, date(2024, 1, 28));
    let d = date_of(Date::RelativeWeekWeekday(RelativeSpecifier::Last, Weekday::Monday), friday_noon(), sunday());
    assert_eq!(d, date(2024, 1, 8));
    let d = date_of(Date::RelativeWeekWeekday(RelativeSpecifier::This, Weekday::Wednesday), friday_noon(), sunday());
    assert_eq!(d, date(2024, 1, 17));
}

#[test]
fn keywords_today_tomorrow_yesterday_overmorrow() {
    let now = at(2024, 2, 28, 8, 30, 0);
    assert_eq!(date_of(Date::Today, now, sunday()), date(2024, 2, 28));
    assert_eq!(date_of(Date::Tomorrow, now, sunday()), date(2024, 2, 29));
    assert_eq!(date_of(Date::Overmorrow, now, sunday()), date(2024, 3, 1));
    assert_eq!(date_of(Date::Yesterday, at(2024, 3, 1, 0, 0, 0), sunday()), date(2024, 2, 29));
}

#[test]
fn iso_dates_round_trip() {
    for (y, m, d) in [(2024u32, 2u32, 29u32), (1999, 12, 31), (2000, 1, 1), (0, 3, 1), (9999, 6, 15)] {
        let got = date_of(Date::IsoDate(IsoDate { year: y, month: m, day: d }), monday_noon(), sunday());
        assert_eq!(got, date(y as i32, m, d));
    }
}

#[test]
fn invalid_iso_date_is_rejected() {
    let r = resolve(HumanTime::Date(Date::IsoDate(IsoDate { year: 2023, month: 2, day: 30 })), monday_noon());
    assert!(matches!(single_error(r), ProcessingError::InvalidDate { year: 2023, month: 2, day: 30 }));
}

#[test]
fn day_month_forms_use_the_calendar() {
    assert_eq!(date_of(Date::DayMonthYear(29, Month::February, 2024), monday_noon(), sunday()), date(2024, 2, 29));
    assert_eq!(date_of(Date::DayMonth(4, Month::July), monday_noon(), sunday()), date(2024, 7, 4));
    let r = resolve(HumanTime::Date(Date::DayMonthYear(29, Month::February, 2023)), monday_noon());
    assert!(matches!(single_error(r), ProcessingError::InvalidDate { year: 2023, month: 2, day: 29 }));
}

#[test]
fn fixed_length_duration_forward_then_backward() {
    let start = at(2024, 1, 31, 23, 59, 30);
    let d = Duration(vec![
        Quantifier::Week(1),
        Quantifier::Day(3),
        Quantifier::Hour(25),
        Quantifier::Minute(61),
        Quantifier::Second(45),
    ]);
    let forward = apply_duration(&d, start, Direction::Forwards).unwrap();
    assert_eq!(forward, at(2024, 2, 12, 2, 1, 15));
    let back = apply_duration(&d, forward, Direction::Backwards).unwrap();
    assert_eq!(back, start);
}

#[test]
fn months_clamp_to_the_end_of_the_month() {
    let r = resolve(HumanTime::In(In(Duration(vec![Quantifier::Month(1)]))), at(2024, 1, 31, 9, 0, 0));
    assert!(matches!(r, Ok(ParseResult::DateTime(dt)) if dt == at(2024, 2, 29, 9, 0, 0)));
    let r = resolve(HumanTime::Ago(Ago::AgoFromNow(Duration(vec![Quantifier::Month(1)]))), at(2023, 3, 31, 9, 0, 0));
    assert!(matches!(r, Ok(ParseResult::DateTime(dt)) if dt == at(2023, 2, 28, 9, 0, 0)));
    let r = resolve(HumanTime::In(In(Duration(vec![Quantifier::Month(13)]))), at(2023, 12, 15, 9, 0, 0));
    assert!(matches!(r, Ok(ParseResult::DateTime(dt)) if dt == at(2025, 1, 15, 9, 0, 0)));
}

#[test]
fn years_keep_month_and_day_or_fail() {
    let r = resolve(HumanTime::In(In(Duration(vec![Quantifier::Year(4)]))), at(2024, 2, 29, 9, 0, 0));
    assert!(matches!(r, Ok(ParseResult::DateTime(dt)) if dt == at(2028, 2, 29, 9, 0, 0)));
    let r = resolve(HumanTime::In(In(Duration(vec![Quantifier::Year(1)]))), at(2024, 2, 29, 9, 0, 0));
    assert!(matches!(single_error(r), ProcessingError::InvalidDate { year: 2025, month: 2, day: 29 }));
}

#[test]
fn quantifiers_apply_in_order_and_stop_at_the_first_failure() {
    let d = Duration(vec![Quantifier::Month(1), Quantifier::Day(1)]);
    let r = apply_duration(&d, at(2024, 1, 31, 0, 0, 0), Direction::Forwards).unwrap();
    assert_eq!(r, at(2024, 3, 1, 0, 0, 0));
    let d = Duration(vec![Quantifier::Day(1), Quantifier::Month(1)]);
    let r = apply_duration(&d, at(2024, 1, 31, 0, 0, 0), Direction::Forwards).unwrap();
    assert_eq!(r, at(2024, 3, 1, 0, 0, 0));
    let d = Duration(vec![Quantifier::Day(2), Quantifier::Month(1)]);
    let r = apply_duration(&d, at(2024, 1, 30, 0, 0, 0), Direction::Forwards).unwrap();
    assert_eq!(r, at(2024, 3, 1, 0, 0, 0));
    let d = Duration(vec![Quantifier::Year(1), Quantifier::Day(1)]);
    let r = apply_duration(&d, at(2024, 2, 29, 0, 0, 0), Direction::Forwards);
    assert!(matches!(r, Err(ProcessingError::InvalidDate { year: 2025, month: 2, day: 29 })));
}

#[test]
fn hours_cross_midnight() {
    let r = resolve(HumanTime::In(In(Duration(vec![Quantifier::Hour(3)]))), at(2023, 12, 31, 22, 15, 0));
    assert!(matches!(r, Ok(ParseResult::DateTime(dt)) if dt == at(2024, 1, 1, 1, 15, 0)));
    let r = resolve(HumanTime::Ago(Ago::AgoFromNow(Duration(vec![Quantifier::Second(61)]))), at(2024, 3, 1, 0, 0, 30));
    assert!(matches!(r, Ok(ParseResult::DateTime(dt)) if dt == at(2024, 2, 29, 23, 59, 29)));
}

#[test]
fn nanoseconds_of_now_are_kept() {
    let mut now = monday_noon();
    now.time.nano = 123_456_789;
    let r = resolve(HumanTime::In(In(Duration(vec![Quantifier::Minute(90)]))), now);
    match r {
        Ok(ParseResult::DateTime(dt)) => {
            assert_eq!(dt.time.nano, 123_456_789);
            assert_eq!((dt.time.hour, dt.time.minute), (13, 30));
        }
        other => panic!("{:?}", other),
    }
}

#[test]
fn now_is_returned_unchanged() {
    let r = resolve(HumanTime::Now, monday_noon());
    assert!(matches!(r, Ok(ParseResult::DateTime(dt)) if dt == monday_noon()));
}

#[test]
fn times_are_checked() {
    let r = resolve(HumanTime::Time(Time::HourMinute(19, 45)), monday_noon());
    assert!(matches!(r, Ok(ParseResult::Time(t)) if t == ClockTime { hour: 19, minute: 45, second: 0, nano: 0 }));
    let r = resolve(HumanTime::Time(Time::HourMinute(24, 0)), monday_noon());
    assert!(matches!(single_error(r), ProcessingError::TimeHourMinute { hour: 24, minute: 0 }));
    let r = resolve(HumanTime::Time(Time::HourMinuteSecond(10, 0, 60)), monday_noon());
    assert!(matches!(single_error(r), ProcessingError::TimeHourMinuteSecond { hour: 10, minute: 0, second: 60 }));
}

#[test]
fn date_with_time_combines() {
    let r = resolve(HumanTime::DateTime(DateTime { date: Date::Tomorrow, time: Time::HourMinute(10, 5) }), monday_noon());
    assert!(matches!(r, Ok(ParseResult::DateTime(dt)) if dt == at(2024, 1, 16, 10, 5, 0)));
}

#[test]
fn date_with_time_lists_both_failures() {
    let r = resolve(
        HumanTime::DateTime(DateTime {
            date: Date::IsoDate(IsoDate { year: 2023, month: 13, day: 1 }),
            time: Time::HourMinute(10, 75),
        }),
        monday_noon(),
    );
    match r {
        Err(ParseError::ProccessingErrors(v)) => {
            assert_eq!(v.len(), 2);
            assert!(matches!(v[0], ProcessingError::InvalidDate { year: 2023, month: 13, day: 1 }));
            assert!(matches!(v[1], ProcessingError::TimeHourMinute { hour: 10, minute: 75 }));
        }
        other => panic!("{:?}", other),
    }
    let r = resolve(
        HumanTime::DateTime(DateTime { date: Date::Today, time: Time::HourMinute(25, 0) }),
        monday_noon(),
    );
    assert!(matches!(single_error(r), ProcessingError::TimeHourMinute { hour: 25, minute: 0 }));
}

#[test]
fn ago_from_a_nested_expression() {
    let inner = HumanTime::Date(Date::Tomorrow);
    let r = resolve(HumanTime::Ago(Ago::AgoFromTime(Duration(vec![Quantifier::Hour(2)]), Box::new(inner))), monday_noon());
    assert!(matches!(r, Ok(ParseResult::DateTime(dt)) if dt == at(2024, 1, 16, 10, 0, 0)));
    let inner = HumanTime::Time(Time::HourMinute(8, 0));
    let r = resolve(HumanTime::Ago(Ago::AgoFromTime(Duration(vec![Quantifier::Day(1)]), Box::new(inner))), monday_noon());
    assert!(matches!(r, Ok(ParseResult::DateTime(dt)) if dt == at(2024, 1, 14, 8, 0, 0)));
}

#[test]
fn ago_wraps_a_failing_nested_expression() {
    let inner = HumanTime::Time(Time::HourMinute(30, 0));
    let r = resolve(HumanTime::Ago(Ago::AgoFromTime(Duration(vec![Quantifier::Day(1)]), Box::new(inner))), monday_noon());
    match single_error(r) {
        ProcessingError::InnerHumanTimeParse(inner) => match *inner {
            ParseError::ProccessingErrors(v) => {
                assert!(matches!(v[0], ProcessingError::TimeHourMinute { hour: 30, minute: 0 }));
            }
            other => panic!("{:?}", other),
        },
        other => panic!("{:?}", other),
    }
}

#[test]
fn moving_past_the_last_date_fails() {
    let end = at(262142, 12, 31, 12, 0, 0);
    let r = resolve(HumanTime::Date(Date::Tomorrow), end);
    assert!(matches!(single_error(r), ProcessingError::AddToNow { unit: TimeUnit::Day, count: 1 }));
    let r = resolve(HumanTime::In(In(Duration(vec![Quantifier::Month(1)]))), end);
    assert!(matches!(single_error(r), ProcessingError::AddToDate { unit: TimeUnit::Month, count: 1, .. }));
    let r = resolve(HumanTime::In(In(Duration(vec![Quantifier::Hour(12)]))), end);
    assert!(matches!(single_error(r), ProcessingError::AddToDate { unit: TimeUnit::Hour, count: 12, .. }));
    let start = at(-262143, 1, 1, 0, 0, 0);
    let r = resolve(HumanTime::Date(Date::Yesterday), start);
    assert!(matches!(single_error(r), ProcessingError::SubtractFromNow { unit: TimeUnit::Day, count: 1 }));
    let r = resolve(HumanTime::Ago(Ago::AgoFromNow(Duration(vec![Quantifier::Week(1)]))), start);
    assert!(matches!(single_error(r), ProcessingError::SubtractFromDate { unit: TimeUnit::Week, count: 1, .. }));
}

#[test]
fn ordinal_reference_failure_is_wrapped() {
    let start = at(-262143, 1, 1, 0, 0, 0);
    let reference = DateTimeReference::Ago(Duration(vec![Quantifier::Day(3)]));
    let r = parse_date(&ordinal_of(Ordinal::First, TimeUnit::Day, reference), start, sunday());
    match r {
        Err(ProcessingError::InnerReference(inner)) => {
            assert!(matches!(*inner, ProcessingError::SubtractFromDate { unit: TimeUnit::Day, count: 3, .. }));
        }
        other => panic!("{:?}", other),
    }
}

#[test]
fn ordinal_days_of_a_month() {
    let this_month = || DateTimeReference::RelativeTimeUnit(RelativeSpecifier::This, TimeUnit::Month);
    let now = at(2024, 2, 10, 0, 0, 0);
    assert_eq!(date_of(ordinal_of(Ordinal::First, TimeUnit::Day, this_month()), now, sunday()), date(2024, 2, 1));
    assert_eq!(date_of(ordinal_of(Ordinal::Last, TimeUnit::Day, this_month()), now, sunday()), date(2024, 2, 29));
    assert_eq!(date_of(ordinal_of(Ordinal::Nth(15), TimeUnit::Day, this_month()), now, sunday()), date(2024, 2, 15));
    let r = parse_date(&ordinal_of(Ordinal::Nth(30), TimeUnit::Day, this_month()), now, sunday());
    assert!(matches!(r, Err(ProcessingError::InvalidDate { year: 2024, month: 2, day: 30 })));
    let last_month = DateTimeReference::RelativeTimeUnit(RelativeSpecifier::Last, TimeUnit::Month);
    assert_eq!(date_of(ordinal_of(Ordinal::Last, TimeUnit::Day, last_month), at(2024, 1, 5, 0, 0, 0), sunday()), date(2023, 12, 31));
}

#[test]
fn ordinal_days_of_a_year() {
    let this_year = || DateTimeReference::RelativeTimeUnit(RelativeSpecifier::This, TimeUnit::Year);
    let now = monday_noon();
    assert_eq!(date_of(ordinal_of(Ordinal::First, TimeUnit::Day, this_year()), now, sunday()), date(2024, 1, 1));
    assert_eq!(date_of(ordinal_of(Ordinal::Last, TimeUnit::Day, this_year()), now, sunday()), date(2024, 12, 31));
    assert_eq!(date_of(ordinal_of(Ordinal::Nth(100), TimeUnit::Day, this_year()), now, sunday()), date(2024, 4, 9));
    assert_eq!(date_of(ordinal_of(Ordinal::Nth(366), TimeUnit::Day, DateTimeReference::TheTimeUnit(TimeUnit::Year)), now, sunday()), date(2024, 12, 31));
    let r = parse_date(&ordinal_of(Ordinal::Nth(367), TimeUnit::Day, this_year()), now, sunday());
    assert!(matches!(r, Err(ProcessingError::AddToDate { unit: TimeUnit::Day, count: 367, .. })));
    let next_year = DateTimeReference::RelativeTimeUnit(RelativeSpecifier::Next, TimeUnit::Year);
    assert_eq!(date_of(ordinal_of(Ordinal::Nth(60), TimeUnit::Year, next_year), now, sunday()), date(2025, 3, 1));
}

#[test]
fn ordinal_months_of_a_year() {
    let now = monday_noon();
    let r = || DateTimeReference::RelativeTimeUnit(RelativeSpecifier::This, TimeUnit::Year);
    assert_eq!(date_of(ordinal_of(Ordinal::First, TimeUnit::Month, r()), now, sunday()), date(2024, 1, 1));
    assert_eq!(date_of(ordinal_of(Ordinal::Last, TimeUnit::Month, r()), now, sunday()), date(2024, 12, 1));
    assert_eq!(date_of(ordinal_of(Ordinal::Nth(5), TimeUnit::Month, r()), now, sunday()), date(2024, 5, 1));
    let e = parse_date(&ordinal_of(Ordinal::Nth(13), TimeUnit::Month, r()), now, sunday());
    assert!(matches!(e, Err(ProcessingError::InvalidDate { year: 2024, month: 13, day: 1 })));
}

#[test]
fn ordinal_days_of_a_week() {
    let now = friday_noon();
    let this_week = || DateTimeReference::RelativeTimeUnit(RelativeSpecifier::This, TimeUnit::Week);
    assert_eq!(date_of(ordinal_of(Ordinal::First, TimeUnit::Week, this_week()), now, sunday()), date(2024, 1, 14));
    assert_eq!(date_of(ordinal_of(Ordinal::Last, TimeUnit::Week, this_week()), now, monday_start()), date(2024, 1, 21));
    assert_eq!(date_of(ordinal_of(Ordinal::Nth(3), TimeUnit::Week, this_week()), now, monday_start()), date(2024, 1, 17));
    let e = parse_date(&ordinal_of(Ordinal::Nth(8), TimeUnit::Week, this_week()), now, sunday());
    assert!(matches!(e, Err(ProcessingError::InvalidDate { year: 2024, month: 1, day: 8 })));
}

#[test]
fn ordinal_weeks_of_a_month() {
    let feb = || DateTimeReference::MonthYear(MonthSpec::Absolute(Month::February), Some(YearSpec::Absolute(2024)));
    let now = monday_noon();
    assert_eq!(date_of(ordinal_of(Ordinal::First, TimeUnit::Week, feb()), now, sunday()), date(2024, 2, 1));
    assert_eq!(date_of(ordinal_of(Ordinal::Nth(2), TimeUnit::Week, feb()), now, sunday()), date(2024, 2, 8));
    assert_eq!(date_of(ordinal_of(Ordinal::Last, TimeUnit::Week, feb()), now, sunday()), date(2024, 2, 29));
    let next_month = DateTimeReference::RelativeTimeUnit(RelativeSpecifier::Next, TimeUnit::Month);
    assert_eq!(date_of(ordinal_of(Ordinal::Nth(3), TimeUnit::Week, next_month), now, sunday()), date(2024, 2, 15));
}

#[test]
fn ordinal_week_past_the_month_is_an_error() {
    let feb = DateTimeReference::MonthYear(MonthSpec::Absolute(Month::February), Some(YearSpec::Absolute(2023)));
    let r = parse_date(&ordinal_of(Ordinal::Nth(5), TimeUnit::Week, feb), monday_noon(), sunday());
    assert!(matches!(r, Err(ProcessingError::InvalidDate { year: 2023, month: 2, day: 29 })));
}

#[test]
fn sub_day_ordinals_give_the_anchor_date() {
    let d = date_of(ordinal_of(Ordinal::Nth(3), TimeUnit::Hour, DateTimeReference::Tomorrow), monday_noon(), sunday());
    assert_eq!(d, date(2024, 1, 16));
}

#[test]
fn month_year_references() {
    let now = at(2024, 3, 15, 0, 0, 0);
    let first = |ms: MonthSpec, ys: Option<YearSpec>| date_of(ordinal_of(Ordinal::First, TimeUnit::Day, DateTimeReference::MonthYear(ms, ys)), now, sunday());
    assert_eq!(first(MonthSpec::Current, None), date(2024, 3, 1));
    assert_eq!(first(MonthSpec::RelativeCurrent(RelativeSpecifier::Next), None), date(2024, 4, 1));
    assert_eq!(first(MonthSpec::Relative(RelativeSpecifier::Last, Month::May), None), date(2023, 5, 1));
    assert_eq!(first(MonthSpec::Relative(RelativeSpecifier::Last, Month::January), None), date(2024, 1, 1));
    assert_eq!(first(MonthSpec::Relative(RelativeSpecifier::Next, Month::January), None), date(2025, 1, 1));
    assert_eq!(first(MonthSpec::Absolute(Month::June), Some(YearSpec::Relative(RelativeSpecifier::Last))), date(2023, 6, 1));
    let jan = at(2024, 1, 20, 0, 0, 0);
    let d = date_of(ordinal_of(Ordinal::First, TimeUnit::Day, DateTimeReference::MonthYear(MonthSpec::RelativeCurrent(RelativeSpecifier::Last), None)), jan, sunday());
    assert_eq!(d, date(2023, 12, 1));
}

#[test]
fn relative_units_as_dates() {
    let now = monday_noon();
    assert_eq!(date_of(Date::RelativeTimeUnit(RelativeSpecifier::Next, TimeUnit::Month), now, sunday()), date(2024, 2, 15));
    assert_eq!(date_of(Date::RelativeTimeUnit(RelativeSpecifier::Last, TimeUnit::Year), now, sunday()), date(2023, 1, 15));
    assert_eq!(date_of(Date::RelativeTimeUnit(RelativeSpecifier::This, TimeUnit::Week), now, sunday()), date(2024, 1, 15));
    assert_eq!(date_of(Date::RelativeTimeUnit(RelativeSpecifier::Next, TimeUnit::Week), now, sunday()), date(2024, 1, 22));
}

#[test]
fn same_weekday_at_the_ends_of_the_calendar() {
    let weekdays = [
        Weekday::Monday, Weekday::Tuesday, Weekday::Wednesday, Weekday::Thursday,
        Weekday::Friday, Weekday::Saturday, Weekday::Sunday,
    ];
    let last = chrono::NaiveDate::from_ymd_opt(262142, 12, 31).unwrap();
    let wd = weekdays[last.weekday().num_days_from_monday() as usize];
    let end = at(262142, 12, 31, 12, 0, 0);
    let r = parse_date(&Date::RelativeWeekday(RelativeSpecifier::Next, wd), end, sunday());
    assert!(matches!(r, Err(ProcessingError::AddToNow { unit: TimeUnit::Day, count: 7 })));
    let r = parse_date(&Date::RelativeWeekday(RelativeSpecifier::Last, wd), end, sunday());
    assert_eq!(r.unwrap(), date(262142, 12, 24));
    let first = chrono::NaiveDate::from_ymd_opt(-262143, 1, 1).unwrap();
    let wd = weekdays[first.weekday().num_days_from_monday() as usize];
    let start = at(-262143, 1, 1, 12, 0, 0);
    let r = parse_date(&Date::RelativeWeekday(RelativeSpecifier::Last, wd), start, sunday());
    assert!(matches!(r, Err(ProcessingError::SubtractFromNow { unit: TimeUnit::Day, count: 7 })));
}
