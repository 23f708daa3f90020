//! Turns natural-language date expressions into concrete calendar values,
//! relative to a reference instant supplied by the caller.
//!
//! A grammar hands over a [`syntax::SyntaxNode`] tree; [`builder`] lowers it to
//! the expression tree of [`ast`]; [`dispatch::parse_human_time`] resolves that
//! tree against the reference instant and a [`error::ParseConfig`], using the
//! duration applier ([`duration`]), the weekday resolver ([`weekday`]) and the
//! reference and ordinal resolvers ([`reference`]). Calendar arithmetic is
//! chrono's, behind the contracts of [`calendar`]; [`laws`] proves properties
//! that span several of these functions.

pub mod ast;
pub mod builder;
pub mod calendar;
pub mod calendar_facts;
pub mod dispatch;
pub mod duration;
pub mod error;
pub mod laws;
pub mod ordinal;
pub mod reference;
pub mod syntax;
pub mod weekday;
