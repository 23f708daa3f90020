//! The syntax tree that a grammar hands over: tagged nodes with their text.

use vstd::prelude::*;

verus! {

/// Kind of a syntax node, one per grammar production.
#[derive(Debug, Clone, Copy, PartialEq, Eq, Structural)]
pub enum Rule {
    HumanTime,
    DateTime,
    Date,
    IsoDate,
    Ago,
    In,
    Now,
    Today,
    Tomorrow,
    Yesterday,
    Overmorrow,
    Time,
    Duration,
    SingleUnit,
    Quantifier,
    Num,
    RelativeSpecifier,
    This,
    Next,
    Last,
    TimeUnit,
    Year,
    Month,
    Week,
    Day,
    Hour,
    Minute,
    Second,
    Weekday,
    Monday,
    Tuesday,
    Wednesday,
    Thursday,
    Friday,
    Saturday,
    Sunday,
    MonthName,
    January,
    February,
    March,
    April,
    May,
    June,
    July,
    August,
    September,
    October,
    November,
    December,
    OrdinalTimeUnitOf,
    DateTimeReference,
    Ordinal,
    MonthSpec,
    YearSpec,
}

/// A node of the syntax tree: its kind, the text it spans, and its children in order.
#[derive(Debug)]
pub struct SyntaxNode {
    pub rule: Rule,
    pub text: String,
    pub children: Vec<SyntaxNode>,
}

} // verus!
