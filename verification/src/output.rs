//! The concrete resolved values the resolver produces.

use vstd::prelude::*;
use crate::dimension::{DatetimeKind, FloatBits32, FloatBits64, Period, Precision};
use crate::interval::{Grain, Moment};

verus! {

/// A resolved point in time, with the flags forwarded from the expression.
#[derive(Clone, Copy, Debug, PartialEq)]
pub struct DatetimeOutput {
    pub moment: Moment,
    pub grain: Grain,
    pub precision: Precision,
    pub latent: bool,
    pub datetime_kind: DatetimeKind,
}

/// The shape of a resolved datetime range: open-ended after or before an
/// anchor, or a closed span between two moments.
#[derive(Clone, Copy, Debug, PartialEq)]
pub enum DatetimeIntervalKind {
    After(DatetimeOutput),
    Before(DatetimeOutput),
    Between { start: Moment, end: Moment, precision: Precision, latent: bool },
}

/// A resolved datetime range.
#[derive(Clone, Copy, Debug, PartialEq)]
pub struct DatetimeIntervalOutput {
    pub interval_kind: DatetimeIntervalKind,
    pub datetime_kind: DatetimeKind,
}

/// A resolved integer.
#[derive(Clone, Copy, Debug, PartialEq, Eq, Structural)]
pub struct IntegerOutput(pub i64);

/// A resolved non-integral number, as its carried bit pattern.
#[derive(Clone, Copy, Debug, PartialEq, Eq, Structural)]
pub struct FloatOutput(pub FloatBits64);

/// A resolved ordinal.
#[derive(Clone, Copy, Debug, PartialEq, Eq, Structural)]
pub struct OrdinalOutput(pub i64);

/// A resolved amount of money.
#[derive(Clone, Debug, PartialEq)]
pub struct AmountOfMoneyOutput {
    pub value: FloatBits32,
    pub precision: Precision,
    pub unit: Option<String>,
}

/// A resolved temperature.
#[derive(Clone, Debug, PartialEq)]
pub struct TemperatureOutput {
    pub value: FloatBits32,
    pub unit: Option<String>,
    pub latent: bool,
}

/// A resolved duration.
#[derive(Clone, Debug, PartialEq)]
pub struct DurationOutput {
    pub period: Period,
    pub precision: Precision,
}

/// A resolved percentage.
#[derive(Clone, Copy, Debug, PartialEq, Eq, Structural)]
pub struct PercentageOutput(pub FloatBits64);

/// One concrete resolved value, tagged by kind.
#[derive(Clone, Debug, PartialEq)]
pub enum Output {
    Datetime(DatetimeOutput),
    DatetimeInterval(DatetimeIntervalOutput),
    Integer(IntegerOutput),
    Float(FloatOutput),
    Ordinal(OrdinalOutput),
    AmountOfMoney(AmountOfMoneyOutput),
    Temperature(TemperatureOutput),
    Duration(DurationOutput),
    Percentage(PercentageOutput),
}

/// A likely mismatch between the grammar's declared kind and the resolved
/// value: an expression declared `Date` or `Time` (not `DateTime`) that
/// nonetheless resolved to a genuine span. The value itself is still sound
/// and is returned as usual; an operator may want a diagnostic about it.
pub open spec fn spec_span_anomaly(out: Output) -> bool {
    match out {
        Output::DatetimeInterval(o) => {
            &&& (o.interval_kind matches DatetimeIntervalKind::Between { .. })
            &&& (o.datetime_kind == DatetimeKind::Date || o.datetime_kind == DatetimeKind::Time)
        },
        _ => false,
    }
}

/// Whether a resolved value shows the span anomaly; see `spec_span_anomaly`.
/// Reporting it (a log line, never a failure) is the caller's business.
pub fn span_anomaly(out: &Output) -> (r: bool)
    ensures
        r == spec_span_anomaly(*out),
{
    match out {
        Output::DatetimeInterval(o) => {
            let spanning = match &o.interval_kind {
                DatetimeIntervalKind::Between { .. } => true,
                _ => false,
            };
            spanning && (o.datetime_kind == DatetimeKind::Date
                || o.datetime_kind == DatetimeKind::Time)
        },
        _ => false,
    }
}

} // verus!
