//! Lowering of a syntax tree to the expression tree, one case per production.

use vstd::prelude::*;
use crate::ast::{
    Ago, Date, DateTime, DateTimeReference, Duration, HumanTime, In, IsoDate, Month, MonthSpec,
    Ordinal, Quantifier, RelativeSpecifier, Time, TimeUnit, Weekday, YearSpec,
};
use crate::error::{InternalError, ParseError};
use crate::ordinal::{ascii_lower, lower_ascii, ordinal_from_str, ordinal_value, parse_u32, same_text, u32_from_decimal};
use crate::syntax::{Rule, SyntaxNode};

verus! {

/// Kinds of a node's children, in order.
pub open spec fn kinds(n: SyntaxNode) -> Seq<Rule> {
    n.children@.map_values(|c: SyntaxNode| c.rule)
}

/// Whether a node has exactly one child, of kind `a`.
pub fn shape1(n: &SyntaxNode, a: Rule) -> (r: bool)
    ensures
        r == (kinds(*n) == seq![a]),
        r ==> n.children@.len() == 1,
{
    let ok = n.children.len() == 1 && n.children[0].rule == a;
    proof {
        if ok {
            assert(kinds(*n) =~= seq![a]);
        } else if n.children@.len() == 1 {
            assert(kinds(*n)[0] != seq![a][0]);
        } else {
            assert(kinds(*n).len() != seq![a].len());
        }
    }
    ok
}

/// Whether a node has exactly two children, of kinds `a` and `b`.
pub fn shape2(n: &SyntaxNode, a: Rule, b: Rule) -> (r: bool)
    ensures
        r == (kinds(*n) == seq![a, b]),
        r ==> n.children@.len() == 2,
{
    let ok = n.children.len() == 2 && n.children[0].rule == a && n.children[1].rule == b;
    proof {
        if ok {
            assert(kinds(*n) =~= seq![a, b]);
        } else if n.children@.len() == 2 {
            if n.children@[0].rule != a {
                assert(kinds(*n)[0] != seq![a, b][0]);
            } else {
                assert(kinds(*n)[1] != seq![a, b][1]);
            }
        } else {
            assert(kinds(*n).len() != seq![a, b].len());
        }
    }
    ok
}

/// Whether a node has exactly three children, of kinds `a`, `b` and `c`.
pub fn shape3(n: &SyntaxNode, a: Rule, b: Rule, c: Rule) -> (r: bool)
    ensures
        r == (kinds(*n) == seq![a, b, c]),
        r ==> n.children@.len() == 3,
{
    let ok = n.children.len() == 3 && n.children[0].rule == a && n.children[1].rule == b
        && n.children[2].rule == c;
    proof {
        if ok {
            assert(kinds(*n) =~= seq![a, b, c]);
        } else if n.children@.len() == 3 {
            if n.children@[0].rule != a {
                assert(kinds(*n)[0] != seq![a, b, c][0]);
            } else if n.children@[1].rule != b {
                assert(kinds(*n)[1] != seq![a, b, c][1]);
            } else {
                assert(kinds(*n)[2] != seq![a, b, c][2]);
            }
        } else {
            assert(kinds(*n).len() != seq![a, b, c].len());
        }
    }
    ok
}

pub open spec fn num_value(n: SyntaxNode) -> Option<u32> {
    u32_from_decimal(n.text@)
}

/// A number node's value.
pub fn build_num(n: &SyntaxNode) -> (r: Option<u32>)
    ensures
        r == num_value(*n),
{
    parse_u32(n.text.as_str())
}

pub open spec fn unit_of_rule(rule: Rule) -> Option<TimeUnit> {
    match rule {
        Rule::Year => Some(TimeUnit::Year),
        Rule::Month => Some(TimeUnit::Month),
        Rule::Week => Some(TimeUnit::Week),
        Rule::Day => Some(TimeUnit::Day),
        Rule::Hour => Some(TimeUnit::Hour),
        Rule::Minute => Some(TimeUnit::Minute),
        Rule::Second => Some(TimeUnit::Second),
        _ => None,
    }
}

pub open spec fn weekday_of_rule(rule: Rule) -> Option<Weekday> {
    match rule {
        Rule::Monday => Some(Weekday::Monday),
        Rule::Tuesday => Some(Weekday::Tuesday),
        Rule::Wednesday => Some(Weekday::Wednesday),
        Rule::Thursday => Some(Weekday::Thursday),
        Rule::Friday => Some(Weekday::Friday),
        Rule::Saturday => Some(Weekday::Saturday),
        Rule::Sunday => Some(Weekday::Sunday),
        _ => None,
    }
}

pub open spec fn month_of_rule(rule: Rule) -> Option<Month> {
    match rule {
        Rule::January => Some(Month::January),
        Rule::February => Some(Month::February),
        Rule::March => Some(Month::March),
        Rule::April => Some(Month::April),
        Rule::May => Some(Month::May),
        Rule::June => Some(Month::June),
        Rule::July => Some(Month::July),
        Rule::August => Some(Month::August),
        Rule::September => Some(Month::September),
        Rule::October => Some(Month::October),
        Rule::November => Some(Month::November),
        Rule::December => Some(Month::December),
        _ => None,
    }
}

/// Kind of a node's first child, if it has one.
pub open spec fn first_child_rule(n: SyntaxNode) -> Option<Rule> {
    if n.children@.len() >= 1 { Some(n.children@[0].rule) } else { None }
}

pub open spec fn time_unit_value(n: SyntaxNode) -> Option<TimeUnit> {
    match first_child_rule(n) {
        Some(rule) => unit_of_rule(rule),
        None => None,
    }
}

pub open spec fn weekday_value(n: SyntaxNode) -> Option<Weekday> {
    match first_child_rule(n) {
        Some(rule) => weekday_of_rule(rule),
        None => None,
    }
}

pub open spec fn month_value(n: SyntaxNode) -> Option<Month> {
    match first_child_rule(n) {
        Some(rule) => month_of_rule(rule),
        None => None,
    }
}

/// A time unit node: the unit its first child names.
pub fn build_time_unit(n: &SyntaxNode) -> (r: Option<TimeUnit>)
    ensures
        r == time_unit_value(*n),
{
    if n.children.len() == 0 {
        return None;
    }
    match n.children[0].rule {
        Rule::Year => Some(TimeUnit::Year),
        Rule::Month => Some(TimeUnit::Month),
        Rule::Week => Some(TimeUnit::Week),
        Rule::Day => Some(TimeUnit::Day),
        Rule::Hour => Some(TimeUnit::Hour),
        Rule::Minute => Some(TimeUnit::Minute),
        Rule::Second => Some(TimeUnit::Second),
        _ => None,
    }
}

/// A weekday node: the weekday its first child names.
pub fn build_weekday(n: &SyntaxNode) -> (r: Option<Weekday>)
    ensures
        r == weekday_value(*n),
{
    if n.children.len() == 0 {
        return None;
    }
    match n.children[0].rule {
        Rule::Monday => Some(Weekday::Monday),
        Rule::Tuesday => Some(Weekday::Tuesday),
        Rule::Wednesday => Some(Weekday::Wednesday),
        Rule::Thursday => Some(Weekday::Thursday),
        Rule::Friday => Some(Weekday::Friday),
        Rule::Saturday => Some(Weekday::Saturday),
        Rule::Sunday => Some(Weekday::Sunday),
        _ => None,
    }
}

/// A month name node: the month its first child names.
pub fn build_month_name(n: &SyntaxNode) -> (r: Option<Month>)
    ensures
        r == month_value(*n),
{
    if n.children.len() == 0 {
        return None;
    }
    match n.children[0].rule {
        Rule::January => Some(Month::January),
        Rule::February => Some(Month::February),
        Rule::March => Some(Month::March),
        Rule::April => Some(Month::April),
        Rule::May => Some(Month::May),
        Rule::June => Some(Month::June),
        Rule::July => Some(Month::July),
        Rule::August => Some(Month::August),
        Rule::September => Some(Month::September),
        Rule::October => Some(Month::October),
        Rule::November => Some(Month::November),
        Rule::December => Some(Month::December),
        _ => None,
    }
}

pub open spec fn relative_value(n: SyntaxNode) -> Option<RelativeSpecifier> {
    if kinds(n) == seq![Rule::This] {
        Some(RelativeSpecifier::This)
    } else if kinds(n) == seq![Rule::Next] {
        Some(RelativeSpecifier::Next)
    } else if kinds(n) == seq![Rule::Last] {
        Some(RelativeSpecifier::Last)
    } else {
        None
    }
}

/// "this", "next" or "last".
pub fn build_relative_specifier(n: &SyntaxNode) -> (r: Option<RelativeSpecifier>)
    ensures
        r == relative_value(*n),
{
    if shape1(n, Rule::This) {
        Some(RelativeSpecifier::This)
    } else if shape1(n, Rule::Next) {
        Some(RelativeSpecifier::Next)
    } else if shape1(n, Rule::Last) {
        Some(RelativeSpecifier::Last)
    } else {
        None
    }
}

/// An ordinal node: "last", or an ordinal word or number; 1 is `First`,
/// and a zeroth position does not exist.
pub open spec fn ordinal_node_value(n: SyntaxNode) -> Option<Ordinal> {
    if ascii_lower(n.text@) == "last"@ {
        Some(Ordinal::Last)
    } else {
        match ordinal_value(n.text@) {
            Some(k) => if k == 0 {
                None
            } else if k == 1 {
                Some(Ordinal::First)
            } else {
                Some(Ordinal::Nth(k))
            },
            None => None,
        }
    }
}

pub fn build_ordinal(n: &SyntaxNode) -> (r: Option<Ordinal>)
    ensures
        r == ordinal_node_value(*n),
        r matches Some(Ordinal::Nth(k)) ==> k >= 2,
{
    let text = n.text.as_str();
    let lower = lower_ascii(text);
    if same_text(lower.as_str(), "last") {
        return Some(Ordinal::Last);
    }
    match ordinal_from_str(text) {
        Some(k) => if k == 0 {
            None
        } else if k == 1 {
            Some(Ordinal::First)
        } else {
            Some(Ordinal::Nth(k))
        },
        None => None,
    }
}

pub open spec fn quantifier_of(unit: TimeUnit, k: u32) -> Quantifier {
    match unit {
        TimeUnit::Year => Quantifier::Year(k),
        TimeUnit::Month => Quantifier::Month(k),
        TimeUnit::Week => Quantifier::Week(k),
        TimeUnit::Day => Quantifier::Day(k),
        TimeUnit::Hour => Quantifier::Hour(k),
        TimeUnit::Minute => Quantifier::Minute(k),
        TimeUnit::Second => Quantifier::Second(k),
    }
}

fn make_quantifier(unit: TimeUnit, k: u32) -> (r: Quantifier)
    ensures
        r == quantifier_of(unit, k),
{
    match unit {
        TimeUnit::Year => Quantifier::Year(k),
        TimeUnit::Month => Quantifier::Month(k),
        TimeUnit::Week => Quantifier::Week(k),
        TimeUnit::Day => Quantifier::Day(k),
        TimeUnit::Hour => Quantifier::Hour(k),
        TimeUnit::Minute => Quantifier::Minute(k),
        TimeUnit::Second => Quantifier::Second(k),
    }
}

/// "<number> <unit>".
pub open spec fn quantifier_value(n: SyntaxNode) -> Option<Quantifier> {
    if kinds(n) == seq![Rule::Num, Rule::TimeUnit] {
        match (num_value(n.children@[0]), time_unit_value(n.children@[1])) {
            (Some(k), Some(u)) => Some(quantifier_of(u, k)),
            _ => None,
        }
    } else {
        None
    }
}

/// A bare unit, counting one.
pub open spec fn single_unit_value(n: SyntaxNode) -> Option<Quantifier> {
    if kinds(n) == seq![Rule::TimeUnit] {
        match time_unit_value(n.children@[0]) {
            Some(u) => Some(quantifier_of(u, 1)),
            None => None,
        }
    } else {
        None
    }
}

pub fn build_quantifier(n: &SyntaxNode) -> (r: Option<Quantifier>)
    ensures
        r == quantifier_value(*n),
{
    if !shape2(n, Rule::Num, Rule::TimeUnit) {
        return None;
    }
    match (build_num(&n.children[0]), build_time_unit(&n.children[1])) {
        (Some(k), Some(u)) => Some(make_quantifier(u, k)),
        _ => None,
    }
}

pub fn build_single_unit(n: &SyntaxNode) -> (r: Option<Quantifier>)
    ensures
        r == single_unit_value(*n),
{
    if !shape1(n, Rule::TimeUnit) {
        return None;
    }
    match build_time_unit(&n.children[0]) {
        Some(u) => Some(make_quantifier(u, 1)),
        None => None,
    }
}

/// A duration node: one bare unit, or one or more quantifiers in order.
pub open spec fn duration_value(n: SyntaxNode) -> Option<Seq<Quantifier>> {
    let c = n.children@;
    if kinds(n) == seq![Rule::SingleUnit] {
        match single_unit_value(c[0]) {
            Some(q) => Some(seq![q]),
            None => None,
        }
    } else if c.len() >= 1 && (forall|i: int| 0 <= i < c.len() ==> (#[trigger] c[i]).rule == Rule::Quantifier) {
        if forall|i: int| 0 <= i < c.len() ==> (#[trigger] quantifier_value(c[i])) is Some {
            Some(Seq::new(c.len(), |i: int| quantifier_value(c[i])->Some_0))
        } else {
            None
        }
    } else {
        None
    }
}

pub fn build_duration(n: &SyntaxNode) -> (r: Option<Duration>)
    ensures
        r is Some <==> duration_value(*n) is Some,
        r matches Some(d) ==> d.0@ == duration_value(*n)->Some_0 && d.0@.len() >= 1,
{
    if shape1(n, Rule::SingleUnit) {
        return match build_single_unit(&n.children[0]) {
            Some(q) => {
                let mut v = Vec::new();
                v.push(q);
                assert(v@ =~= seq![q]);
                Some(Duration(v))
            },
            None => None,
        };
    }
    let len = n.children.len();
    if len == 0 {
        return None;
    }
    let mut i: usize = 0;
    while i < len
        invariant
            len == n.children@.len(),
            len >= 1,
            kinds(*n) != seq![Rule::SingleUnit],
            i <= len,
            forall|j: int| 0 <= j < i ==> (#[trigger] n.children@[j]).rule == Rule::Quantifier,
        decreases len - i,
    {
        if n.children[i].rule != Rule::Quantifier {
            assert(n.children@[i as int].rule != Rule::Quantifier);
            return None;
        }
        i = i + 1;
    }
    let mut qs: Vec<Quantifier> = Vec::new();
    let mut i: usize = 0;
    while i < len
        invariant
            len == n.children@.len(),
            len >= 1,
            kinds(*n) != seq![Rule::SingleUnit],
            i <= len,
            qs@.len() == i,
            forall|j: int| 0 <= j < len ==> (#[trigger] n.children@[j]).rule == Rule::Quantifier,
            forall|j: int| 0 <= j < i ==> quantifier_value(n.children@[j]) == Some(#[trigger] qs@[j]),
        decreases len - i,
    {
        match build_quantifier(&n.children[i]) {
            Some(q) => {
                qs.push(q);
            },
            None => {
                assert(quantifier_value(n.children@[i as int]) is None);
                return None;
            },
        }
        i = i + 1;
    }
    assert(forall|j: int| 0 <= j < len ==> (#[trigger] quantifier_value(n.children@[j])) is Some) by {
        assert forall|j: int| 0 <= j < len implies (#[trigger] quantifier_value(n.children@[j])) is Some by {
            assert(quantifier_value(n.children@[j]) == Some(qs@[j]));
        }
    }
    assert(qs@ =~= Seq::new(len as nat, |j: int| quantifier_value(n.children@[j])->Some_0));
    Some(Duration(qs))
}

pub open spec fn year_spec_value(n: SyntaxNode) -> Option<YearSpec> {
    if kinds(n) == seq![Rule::RelativeSpecifier] {
        match relative_value(n.children@[0]) {
            Some(r) => Some(YearSpec::Relative(r)),
            None => None,
        }
    } else if kinds(n) == seq![Rule::Num] {
        match num_value(n.children@[0]) {
            Some(y) => Some(YearSpec::Absolute(y)),
            None => None,
        }
    } else {
        None
    }
}

pub fn build_year_spec(n: &SyntaxNode) -> (r: Option<YearSpec>)
    ensures
        r == year_spec_value(*n),
{
    if shape1(n, Rule::RelativeSpecifier) {
        match build_relative_specifier(&n.children[0]) {
            Some(r) => Some(YearSpec::Relative(r)),
            None => None,
        }
    } else if shape1(n, Rule::Num) {
        match build_num(&n.children[0]) {
            Some(y) => Some(YearSpec::Absolute(y)),
            None => None,
        }
    } else {
        None
    }
}

/// "month" or "the month" is the current month; otherwise a month name, a
/// relative specifier with a month name, or a relative specifier alone.
pub open spec fn month_spec_value(n: SyntaxNode) -> Option<MonthSpec> {
    let c = n.children@;
    if n.text@ == "month"@ || n.text@ == "the month"@ {
        Some(MonthSpec::Current)
    } else if kinds(n) == seq![Rule::MonthName] {
        match month_value(c[0]) {
            Some(m) => Some(MonthSpec::Absolute(m)),
            None => None,
        }
    } else if kinds(n) == seq![Rule::RelativeSpecifier, Rule::MonthName] {
        match (relative_value(c[0]), month_value(c[1])) {
            (Some(r), Some(m)) => Some(MonthSpec::Relative(r, m)),
            _ => None,
        }
    } else if kinds(n) == seq![Rule::RelativeSpecifier] {
        match relative_value(c[0]) {
            Some(r) => Some(MonthSpec::RelativeCurrent(r)),
            None => None,
        }
    } else {
        None
    }
}

pub fn build_month_spec(n: &SyntaxNode) -> (r: Option<MonthSpec>)
    ensures
        r == month_spec_value(*n),
{
    let text = n.text.as_str();
    if same_text(text, "month") || same_text(text, "the month") {
        return Some(MonthSpec::Current);
    }
    if shape1(n, Rule::MonthName) {
        match build_month_name(&n.children[0]) {
            Some(m) => Some(MonthSpec::Absolute(m)),
            None => None,
        }
    } else if shape2(n, Rule::RelativeSpecifier, Rule::MonthName) {
        match (build_relative_specifier(&n.children[0]), build_month_name(&n.children[1])) {
            (Some(r), Some(m)) => Some(MonthSpec::Relative(r, m)),
            _ => None,
        }
    } else if shape1(n, Rule::RelativeSpecifier) {
        match build_relative_specifier(&n.children[0]) {
            Some(r) => Some(MonthSpec::RelativeCurrent(r)),
            None => None,
        }
    } else {
        None
    }
}

pub open spec fn iso_value(n: SyntaxNode) -> Option<IsoDate> {
    let c = n.children@;
    if kinds(n) == seq![Rule::Num, Rule::Num, Rule::Num] {
        match (num_value(c[0]), num_value(c[1]), num_value(c[2])) {
            (Some(year), Some(month), Some(day)) => Some(IsoDate { year, month, day }),
            _ => None,
        }
    } else {
        None
    }
}

pub fn build_iso_date(n: &SyntaxNode) -> (r: Option<IsoDate>)
    ensures
        r == iso_value(*n),
{
    if !shape3(n, Rule::Num, Rule::Num, Rule::Num) {
        return None;
    }
    match (build_num(&n.children[0]), build_num(&n.children[1]), build_num(&n.children[2])) {
        (Some(year), Some(month), Some(day)) => Some(IsoDate { year, month, day }),
        _ => None,
    }
}

pub open spec fn time_value(n: SyntaxNode) -> Option<Time> {
    let c = n.children@;
    if kinds(n) == seq![Rule::Num, Rule::Num] {
        match (num_value(c[0]), num_value(c[1])) {
            (Some(h), Some(m)) => Some(Time::HourMinute(h, m)),
            _ => None,
        }
    } else if kinds(n) == seq![Rule::Num, Rule::Num, Rule::Num] {
        match (num_value(c[0]), num_value(c[1]), num_value(c[2])) {
            (Some(h), Some(m), Some(s)) => Some(Time::HourMinuteSecond(h, m, s)),
            _ => None,
        }
    } else {
        None
    }
}

pub fn build_time(n: &SyntaxNode) -> (r: Option<Time>)
    ensures
        r == time_value(*n),
{
    if shape2(n, Rule::Num, Rule::Num) {
        match (build_num(&n.children[0]), build_num(&n.children[1])) {
            (Some(h), Some(m)) => Some(Time::HourMinute(h, m)),
            _ => None,
        }
    } else if shape3(n, Rule::Num, Rule::Num, Rule::Num) {
        match (build_num(&n.children[0]), build_num(&n.children[1]), build_num(&n.children[2])) {
            (Some(h), Some(m), Some(s)) => Some(Time::HourMinuteSecond(h, m, s)),
            _ => None,
        }
    } else {
        None
    }
}

/// `r` is what a reference node lowers to.
pub open spec fn reference_built(n: SyntaxNode, r: DateTimeReference) -> bool {
    let c = n.children@;
    let k = kinds(n);
    if k == seq![Rule::MonthSpec] {
        month_spec_value(c[0]) matches Some(ms) && r == DateTimeReference::MonthYear(ms, None)
    } else if k == seq![Rule::MonthSpec, Rule::YearSpec] {
        month_spec_value(c[0]) matches Some(ms) && year_spec_value(c[1]) matches Some(ys)
            && r == DateTimeReference::MonthYear(ms, Some(ys))
    } else if k == seq![Rule::Duration] {
        duration_value(c[0]) matches Some(qs) && r matches DateTimeReference::Ago(d) && d.0@ == qs
    } else if k == seq![Rule::RelativeSpecifier, Rule::TimeUnit] {
        relative_value(c[0]) matches Some(rel) && time_unit_value(c[1]) matches Some(u)
            && r == DateTimeReference::RelativeTimeUnit(rel, u)
    } else if k == seq![Rule::TimeUnit] {
        time_unit_value(c[0]) matches Some(u) && r == DateTimeReference::TheTimeUnit(u)
    } else if k == seq![Rule::Today] {
        r == DateTimeReference::Today
    } else if k == seq![Rule::Tomorrow] {
        r == DateTimeReference::Tomorrow
    } else if k == seq![Rule::Yesterday] {
        r == DateTimeReference::Yesterday
    } else if k == seq![Rule::Overmorrow] {
        r == DateTimeReference::Overmorrow
    } else if k == seq![Rule::Now] {
        r == DateTimeReference::Now
    } else {
        false
    }
}

pub fn build_datetime_reference(n: &SyntaxNode) -> (r: Option<DateTimeReference>)
    ensures
        r matches Some(v) ==> reference_built(*n, v),
        r is None ==> forall|v: DateTimeReference| !reference_built(*n, v),
{
    if shape1(n, Rule::MonthSpec) {
        match build_month_spec(&n.children[0]) {
            Some(ms) => Some(DateTimeReference::MonthYear(ms, None)),
            None => None,
        }
    } else if shape2(n, Rule::MonthSpec, Rule::YearSpec) {
        match (build_month_spec(&n.children[0]), build_year_spec(&n.children[1])) {
            (Some(ms), Some(ys)) => Some(DateTimeReference::MonthYear(ms, Some(ys))),
            _ => None,
        }
    } else if shape1(n, Rule::Duration) {
        match build_duration(&n.children[0]) {
            Some(d) => Some(DateTimeReference::Ago(d)),
            None => None,
        }
    } else if shape2(n, Rule::RelativeSpecifier, Rule::TimeUnit) {
        match (build_relative_specifier(&n.children[0]), build_time_unit(&n.children[1])) {
            (Some(rel), Some(u)) => Some(DateTimeReference::RelativeTimeUnit(rel, u)),
            _ => None,
        }
    } else if shape1(n, Rule::TimeUnit) {
        match build_time_unit(&n.children[0]) {
            Some(u) => Some(DateTimeReference::TheTimeUnit(u)),
            None => None,
        }
    } else if shape1(n, Rule::Today) {
        Some(DateTimeReference::Today)
    } else if shape1(n, Rule::Tomorrow) {
        Some(DateTimeReference::Tomorrow)
    } else if shape1(n, Rule::Yesterday) {
        Some(DateTimeReference::Yesterday)
    } else if shape1(n, Rule::Overmorrow) {
        Some(DateTimeReference::Overmorrow)
    } else if shape1(n, Rule::Now) {
        Some(DateTimeReference::Now)
    } else {
        None
    }
}

/// `d` is what a date node lowers to.
pub open spec fn date_built(n: SyntaxNode, d: Date) -> bool {
    let c = n.children@;
    let k = kinds(n);
    if k == seq![Rule::Today] {
        d == Date::Today
    } else if k == seq![Rule::Tomorrow] {
        d == Date::Tomorrow
    } else if k == seq![Rule::Overmorrow] {
        d == Date::Overmorrow
    } else if k == seq![Rule::Yesterday] {
        d == Date::Yesterday
    } else if k == seq![Rule::IsoDate] {
        iso_value(c[0]) matches Some(iso) && d == Date::IsoDate(iso)
    } else if k == seq![Rule::Num, Rule::MonthName, Rule::Num] {
        num_value(c[0]) matches Some(day) && month_value(c[1]) matches Some(m)
            && num_value(c[2]) matches Some(y) && d == Date::DayMonthYear(day, m, y)
    } else if k == seq![Rule::Num, Rule::MonthName] {
        num_value(c[0]) matches Some(day) && month_value(c[1]) matches Some(m) && d == Date::DayMonth(day, m)
    } else if k == seq![Rule::RelativeSpecifier, Rule::Week, Rule::Weekday] {
        relative_value(c[0]) matches Some(rel) && weekday_value(c[2]) matches Some(wd)
            && d == Date::RelativeWeekWeekday(rel, wd)
    } else if k == seq![Rule::RelativeSpecifier, Rule::TimeUnit] {
        relative_value(c[0]) matches Some(rel) && time_unit_value(c[1]) matches Some(u)
            && d == Date::RelativeTimeUnit(rel, u)
    } else if k == seq![Rule::RelativeSpecifier, Rule::Weekday] {
        relative_value(c[0]) matches Some(rel) && weekday_value(c[1]) matches Some(wd)
            && d == Date::RelativeWeekday(rel, wd)
    } else if k == seq![Rule::Weekday] {
        weekday_value(c[0]) matches Some(wd) && d == Date::UpcomingWeekday(wd)
    } else if k == seq![Rule::OrdinalTimeUnitOf] {
        let o = c[0];
        &&& kinds(o) == seq![Rule::Ordinal, Rule::TimeUnit, Rule::DateTimeReference]
        &&& d is OrdinalTimeUnitOf
        &&& ordinal_node_value(o.children@[0]) == Some(d->OrdinalTimeUnitOf_0)
        &&& time_unit_value(o.children@[1]) == Some(d->OrdinalTimeUnitOf_1)
        &&& reference_built(o.children@[2], d->OrdinalTimeUnitOf_2)
    } else {
        false
    }
}

/// "<ordinal> <unit> of <reference>".
pub fn build_ordinal_time_unit_of(n: &SyntaxNode) -> (r: Option<(Ordinal, TimeUnit, DateTimeReference)>)
    ensures
        r matches Some(v) ==> kinds(*n) == seq![Rule::Ordinal, Rule::TimeUnit, Rule::DateTimeReference]
            && ordinal_node_value(n.children@[0]) == Some(v.0) && time_unit_value(n.children@[1]) == Some(v.1)
            && reference_built(n.children@[2], v.2),
        r is None ==> !(kinds(*n) == seq![Rule::Ordinal, Rule::TimeUnit, Rule::DateTimeReference]
            && ordinal_node_value(n.children@[0]) is Some && time_unit_value(n.children@[1]) is Some
            && exists|v: DateTimeReference| reference_built(n.children@[2], v)),
{
    if !shape3(n, Rule::Ordinal, Rule::TimeUnit, Rule::DateTimeReference) {
        return None;
    }
    match (build_ordinal(&n.children[0]), build_time_unit(&n.children[1]), build_datetime_reference(&n.children[2])) {
        (Some(o), Some(u), Some(reference)) => Some((o, u, reference)),
        _ => None,
    }
}

pub fn build_date(n: &SyntaxNode) -> (r: Option<Date>)
    ensures
        r matches Some(v) ==> date_built(*n, v),
        r is None ==> forall|v: Date| !date_built(*n, v),
{
    if shape1(n, Rule::Today) {
        Some(Date::Today)
    } else if shape1(n, Rule::Tomorrow) {
        Some(Date::Tomorrow)
    } else if shape1(n, Rule::Overmorrow) {
        Some(Date::Overmorrow)
    } else if shape1(n, Rule::Yesterday) {
        Some(Date::Yesterday)
    } else if shape1(n, Rule::IsoDate) {
        match build_iso_date(&n.children[0]) {
            Some(iso) => Some(Date::IsoDate(iso)),
            None => None,
        }
    } else if shape3(n, Rule::Num, Rule::MonthName, Rule::Num) {
        match (build_num(&n.children[0]), build_month_name(&n.children[1]), build_num(&n.children[2])) {
            (Some(day), Some(m), Some(y)) => Some(Date::DayMonthYear(day, m, y)),
            _ => None,
        }
    } else if shape2(n, Rule::Num, Rule::MonthName) {
        match (build_num(&n.children[0]), build_month_name(&n.children[1])) {
            (Some(day), Some(m)) => Some(Date::DayMonth(day, m)),
            _ => None,
        }
    } else if shape3(n, Rule::RelativeSpecifier, Rule::Week, Rule::Weekday) {
        match (build_relative_specifier(&n.children[0]), build_weekday(&n.children[2])) {
            (Some(rel), Some(wd)) => Some(Date::RelativeWeekWeekday(rel, wd)),
            _ => None,
        }
    } else if shape2(n, Rule::RelativeSpecifier, Rule::TimeUnit) {
        match (build_relative_specifier(&n.children[0]), build_time_unit(&n.children[1])) {
            (Some(rel), Some(u)) => Some(Date::RelativeTimeUnit(rel, u)),
            _ => None,
        }
    } else if shape2(n, Rule::RelativeSpecifier, Rule::Weekday) {
        match (build_relative_specifier(&n.children[0]), build_weekday(&n.children[1])) {
            (Some(rel), Some(wd)) => Some(Date::RelativeWeekday(rel, wd)),
            _ => None,
        }
    } else if shape1(n, Rule::Weekday) {
        match build_weekday(&n.children[0]) {
            Some(wd) => Some(Date::UpcomingWeekday(wd)),
            None => None,
        }
    } else if shape1(n, Rule::OrdinalTimeUnitOf) {
        match build_ordinal_time_unit_of(&n.children[0]) {
            Some((o, u, reference)) => Some(Date::OrdinalTimeUnitOf(o, u, reference)),
            None => {
                proof {
                    assert forall|v: Date| !date_built(*n, v) by {
                        if date_built(*n, v) {
                            let reference = v->OrdinalTimeUnitOf_2;
                            assert(reference_built(n.children@[0].children@[2], reference));
                        }
                    }
                }
                None
            },
        }
    } else {
        None
    }
}

/// `dt` is what a node holding a date and a time, in either order, lowers to.
pub open spec fn date_time_built(n: SyntaxNode, dt: DateTime) -> bool {
    let c = n.children@;
    if kinds(n) == seq![Rule::Date, Rule::Time] {
        date_built(c[0], dt.date) && time_value(c[1]) == Some(dt.time)
    } else if kinds(n) == seq![Rule::Time, Rule::Date] {
        date_built(c[1], dt.date) && time_value(c[0]) == Some(dt.time)
    } else {
        false
    }
}

pub fn build_date_time(n: &SyntaxNode) -> (r: Option<DateTime>)
    ensures
        r matches Some(v) ==> date_time_built(*n, v),
        r is None ==> forall|v: DateTime| !date_time_built(*n, v),
{
    if shape2(n, Rule::Date, Rule::Time) {
        match (build_date(&n.children[0]), build_time(&n.children[1])) {
            (Some(date), Some(time)) => Some(DateTime { date, time }),
            _ => None,
        }
    } else if shape2(n, Rule::Time, Rule::Date) {
        match (build_time(&n.children[0]), build_date(&n.children[1])) {
            (Some(time), Some(date)) => Some(DateTime { date, time }),
            _ => None,
        }
    } else {
        None
    }
}

/// `h` is what an expression node lowers to.
pub open spec fn human_time_built(n: SyntaxNode, h: HumanTime) -> bool
    decreases n
    via human_time_built_decreases
{
    let c = n.children@;
    let k = kinds(n);
    if k == seq![Rule::DateTime] {
        h is DateTime && date_time_built(c[0], h->DateTime_0)
    } else if k == seq![Rule::Date] {
        h is Date && date_built(c[0], h->Date_0)
    } else if k == seq![Rule::Time] {
        time_value(c[0]) matches Some(t) && h == HumanTime::Time(t)
    } else if k == seq![Rule::In] {
        let i = c[0];
        &&& kinds(i) == seq![Rule::Duration]
        &&& duration_value(i.children@[0]) is Some
        &&& h is In
        &&& (h->In_0).0.0@ == duration_value(i.children@[0])->Some_0
    } else if k == seq![Rule::Ago] {
        let a = c[0];
        &&& h is Ago
        &&& duration_value(a.children@[0]) is Some
        &&& if kinds(a) == seq![Rule::Duration] {
            &&& h->Ago_0 is AgoFromNow
            &&& (h->Ago_0->AgoFromNow_0).0@ == duration_value(a.children@[0])->Some_0
        } else if kinds(a) == seq![Rule::Duration, Rule::HumanTime] {
            &&& h->Ago_0 is AgoFromTime
            &&& (h->Ago_0->AgoFromTime_0).0@ == duration_value(a.children@[0])->Some_0
            &&& human_time_built(a.children@[1], *(h->Ago_0->AgoFromTime_1))
        } else {
            false
        }
    } else if k == seq![Rule::Now] {
        h == HumanTime::Now
    } else {
        false
    }
}

#[via_fn]
proof fn human_time_built_decreases(n: SyntaxNode, h: HumanTime) {
    assert(kinds(n).len() == n.children@.len());
    if n.children@.len() >= 1 {
        assert(kinds(n.children@[0]).len() == n.children@[0].children@.len());
    }
    if n.children@.len() >= 1 && n.children@[0].children@.len() >= 2 {
        let a = n.children@[0];
        assert(decreases_to!(n => n.children));
        assert(decreases_to!(n.children => n.children@));
        assert(decreases_to!(n.children@ => a));
        assert(decreases_to!(a => a.children));
        assert(decreases_to!(a.children => a.children@));
        assert(decreases_to!(a.children@ => a.children@[1]));
        assert(decreases_to!(n => n.children@[0].children@[1]));
    }
}

/// Lowers an expression node; `None` when its shape matches no production.
pub fn build_human_time(n: &SyntaxNode) -> (r: Option<HumanTime>)
    ensures
        r matches Some(v) ==> human_time_built(*n, v),
        r is None ==> forall|v: HumanTime| !human_time_built(*n, v),
    decreases n,
{
    if shape1(n, Rule::DateTime) {
        match build_date_time(&n.children[0]) {
            Some(dt) => Some(HumanTime::DateTime(dt)),
            None => None,
        }
    } else if shape1(n, Rule::Date) {
        match build_date(&n.children[0]) {
            Some(d) => Some(HumanTime::Date(d)),
            None => None,
        }
    } else if shape1(n, Rule::Time) {
        match build_time(&n.children[0]) {
            Some(t) => Some(HumanTime::Time(t)),
            None => None,
        }
    } else if shape1(n, Rule::In) {
        let i = &n.children[0];
        if !shape1(i, Rule::Duration) {
            return None;
        }
        match build_duration(&i.children[0]) {
            Some(d) => Some(HumanTime::In(In(d))),
            None => None,
        }
    } else if shape1(n, Rule::Ago) {
        let a = &n.children[0];
        if shape1(a, Rule::Duration) {
            match build_duration(&a.children[0]) {
                Some(d) => Some(HumanTime::Ago(Ago::AgoFromNow(d))),
                None => None,
            }
        } else if shape2(a, Rule::Duration, Rule::HumanTime) {
            let d = match build_duration(&a.children[0]) {
                Some(d) => d,
                None => {
                    return None;
                },
            };
            match build_human_time(&a.children[1]) {
                Some(inner) => Some(HumanTime::Ago(Ago::AgoFromTime(d, Box::new(inner)))),
                None => {
                    proof {
                        assert forall|v: HumanTime| !human_time_built(*n, v) by {
                            if human_time_built(*n, v) {
                                assert(human_time_built(a.children@[1], *(v->Ago_0->AgoFromTime_1)));
                            }
                        }
                    }
                    None
                },
            }
        } else {
            None
        }
    } else if shape1(n, Rule::Now) {
        Some(HumanTime::Now)
    } else {
        None
    }
}

/// Lowers a whole syntax tree; a shape that no production matches is an
/// internal failure, not a user error.
pub fn build_ast_from(root: &SyntaxNode) -> (r: Result<HumanTime, ParseError>)
    ensures
        r matches Ok(v) ==> human_time_built(*root, v),
        r is Err ==> (r matches Err(ParseError::InternalError(InternalError::FailedToBuildAst))
            && forall|v: HumanTime| !human_time_built(*root, v)),
{
    match build_human_time(root) {
        Some(h) => Ok(h),
        None => Err(ParseError::InternalError(InternalError::FailedToBuildAst)),
    }
}

} // verus!
