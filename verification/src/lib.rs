//! Resolution of abstract semantic values against a reference point in time.
//!
//! A recognized but still abstract value (a datetime expression, a number, a
//! money amount, ...) is turned into one concrete output value, anchored to a
//! caller-supplied reference "now". The temporal core drives the forward and
//! backward candidate sequences of a constraint, applies the not-immediate,
//! bound and direction policies, and maps the chosen interval into an output.

pub mod interval;
pub mod dimension;
pub mod output;
pub mod walker;
mod calendar;
pub mod context;
pub mod laws;
