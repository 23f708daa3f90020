use human_date_parser::ast::{
    Ago, Date, DateTimeReference, HumanTime, Month, MonthSpec, Ordinal, Quantifier,
    RelativeSpecifier, Time, TimeUnit, Weekday, YearSpec,
};
use human_date_parser::builder::{
    build_ast_from, build_datetime_reference, build_duration, build_month_spec,
    build_ordinal, build_year_spec,
};
use human_date_parser::error::{InternalError, ParseError};
use human_date_parser::syntax::{Rule, SyntaxNode};

fn leaf(rule: Rule, text: &str) -> SyntaxNode {
    SyntaxNode { rule, text: text.to_string(), children: vec![] }
}

fn node(rule: Rule, text: &str, children: Vec<SyntaxNode>) -> SyntaxNode {
    SyntaxNode { rule, text: text.to_string(), children }
}

fn num(text: &str) -> SyntaxNode {
    leaf(Rule::Num, text)
}

fn unit(kind: Rule, text: &str) -> SyntaxNode {
    node(Rule::TimeUnit, text, vec![leaf(kind, text)])
}

fn relative(kind: Rule, text: &str) -> SyntaxNode {
    node(Rule::RelativeSpecifier, text, vec![leaf(kind, text)])
}

fn root(child: SyntaxNode) -> SyntaxNode {
    node(Rule::HumanTime, "", vec![child])
}

#[test]
fn builds_a_relative_weekday() {
    let date = node(Rule::Date, "next friday", vec![
        relative(Rule::Next, "next"),
        node(Rule::Weekday, "friday", vec![leaf(Rule::Friday, "friday")]),
    ]);
    let ht = build_ast_from(&root(date)).unwrap();
    assert!(matches!(ht, HumanTime::Date(Date::RelativeWeekday(RelativeSpecifier::Next, Weekday::Friday))));
}

#[test]
fn builds_an_iso_date_and_time() {
    let iso = node(Rule::IsoDate, "2024-01-15", vec![num("2024"), num("01"), num("15")]);
    let date = node(Rule::Date, "2024-01-15", vec![iso]);
    let time = node(Rule::Time, "19:45", vec![num("19"), num("45")]);
    let dt = node(Rule::DateTime, "", vec![time, date]);
    match build_ast_from(&root(dt)).unwrap() {
        HumanTime::DateTime(x) => {
            assert!(matches!(x.date, Date::IsoDate(i) if i.year == 2024 && i.month == 1 && i.day == 15));
            assert_eq!(x.time, Time::HourMinute(19, 45));
        }
        other => panic!("{:?}", other),
    }
}

#[test]
fn builds_durations_in_order() {
    let d = node(Rule::Duration, "2 days 3 hours", vec![
        node(Rule::Quantifier, "2 days", vec![num("2"), unit(Rule::Day, "days")]),
        node(Rule::Quantifier, "3 hours", vec![num("3"), unit(Rule::Hour, "hours")]),
    ]);
    let built = build_duration(&d).unwrap();
    assert_eq!(built.0, vec![Quantifier::Day(2), Quantifier::Hour(3)]);
    let single = node(Rule::Duration, "week", vec![node(Rule::SingleUnit, "week", vec![unit(Rule::Week, "week")])]);
    assert_eq!(build_duration(&single).unwrap().0, vec![Quantifier::Week(1)]);
    let empty = node(Rule::Duration, "", vec![]);
    assert!(build_duration(&empty).is_none());
}

#[test]
fn builds_nested_ago() {
    let inner = root(node(Rule::Date, "tomorrow", vec![leaf(Rule::Tomorrow, "tomorrow")]));
    let duration = node(Rule::Duration, "2 hours", vec![
        node(Rule::Quantifier, "2 hours", vec![num("2"), unit(Rule::Hour, "hours")]),
    ]);
    let ago = node(Rule::Ago, "", vec![duration, inner]);
    match build_ast_from(&root(ago)).unwrap() {
        HumanTime::Ago(Ago::AgoFromTime(d, inner)) => {
            assert_eq!(d.0, vec![Quantifier::Hour(2)]);
            assert!(matches!(*inner, HumanTime::Date(Date::Tomorrow)));
        }
        other => panic!("{:?}", other),
    }
}

#[test]
fn builds_an_ordinal_of_a_reference() {
    let reference = node(Rule::DateTimeReference, "last month", vec![relative(Rule::Last, "last"), unit(Rule::Month, "month")]);
    let of = node(Rule::OrdinalTimeUnitOf, "", vec![leaf(Rule::Ordinal, "Third"), unit(Rule::Week, "week"), reference]);
    let ht = build_ast_from(&root(node(Rule::Date, "", vec![of]))).unwrap();
    assert!(matches!(
        ht,
        HumanTime::Date(Date::OrdinalTimeUnitOf(
            Ordinal::Nth(3),
            TimeUnit::Week,
            DateTimeReference::RelativeTimeUnit(RelativeSpecifier::Last, TimeUnit::Month)
        ))
    ));
}

#[test]
fn ordinal_nodes() {
    assert_eq!(build_ordinal(&leaf(Rule::Ordinal, "LAST")), Some(Ordinal::Last));
    assert_eq!(build_ordinal(&leaf(Rule::Ordinal, "1st")), Some(Ordinal::First));
    assert_eq!(build_ordinal(&leaf(Rule::Ordinal, "first")), Some(Ordinal::First));
    assert_eq!(build_ordinal(&leaf(Rule::Ordinal, "twenty-second")), Some(Ordinal::Nth(22)));
    assert_eq!(build_ordinal(&leaf(Rule::Ordinal, "umpteenth")), None);
    assert_eq!(build_ordinal(&leaf(Rule::Ordinal, "0th")), None);
    assert_eq!(build_ordinal(&leaf(Rule::Ordinal, "2nd")), Some(Ordinal::Nth(2)));
}

#[test]
fn zeroth_ordinal_is_an_internal_failure() {
    let of = node(Rule::OrdinalTimeUnitOf, "", vec![
        leaf(Rule::Ordinal, "0th"),
        unit(Rule::Day, "day"),
        node(Rule::DateTimeReference, "today", vec![leaf(Rule::Today, "today")]),
    ]);
    let tree = root(node(Rule::Date, "", vec![of]));
    assert!(matches!(build_ast_from(&tree), Err(ParseError::InternalError(InternalError::FailedToBuildAst))));
}

#[test]
fn month_and_year_designators() {
    assert_eq!(build_month_spec(&leaf(Rule::MonthSpec, "the month")), Some(MonthSpec::Current));
    let named = node(Rule::MonthSpec, "next march", vec![
        relative(Rule::Next, "next"),
        node(Rule::MonthName, "march", vec![leaf(Rule::March, "march")]),
    ]);
    assert_eq!(build_month_spec(&named), Some(MonthSpec::Relative(RelativeSpecifier::Next, Month::March)));
    assert_eq!(build_year_spec(&node(Rule::YearSpec, "2025", vec![num("2025")])), Some(YearSpec::Absolute(2025)));
    let reference = node(Rule::DateTimeReference, "", vec![
        node(Rule::MonthSpec, "june", vec![node(Rule::MonthName, "june", vec![leaf(Rule::June, "june")])]),
        node(Rule::YearSpec, "last year", vec![relative(Rule::Last, "last")]),
    ]);
    assert!(matches!(
        build_datetime_reference(&reference),
        Some(DateTimeReference::MonthYear(MonthSpec::Absolute(Month::June), Some(YearSpec::Relative(RelativeSpecifier::Last))))
    ));
}

#[test]
fn unknown_shapes_are_internal_failures() {
    let bad = root(node(Rule::Date, "", vec![num("3"), num("4")]));
    assert!(matches!(build_ast_from(&bad), Err(ParseError::InternalError(InternalError::FailedToBuildAst))));
    let bad_ordinal = node(Rule::OrdinalTimeUnitOf, "", vec![
        leaf(Rule::Ordinal, "zeroth-ish"),
        unit(Rule::Day, "day"),
        node(Rule::DateTimeReference, "today", vec![leaf(Rule::Today, "today")]),
    ]);
    let bad = root(node(Rule::Date, "", vec![bad_ordinal]));
    assert!(matches!(build_ast_from(&bad), Err(ParseError::InternalError(InternalError::FailedToBuildAst))));
    let overflow = root(node(Rule::Time, "", vec![num("99999999999"), num("00")]));
    assert!(build_ast_from(&overflow).is_err());
}
