//! The abstract semantic values the resolver consumes.
//!
//! A `Dimension` is one recognized but still abstract value: a datetime
//! expression carrying a constraint and its policy flags, or one of the
//! scalar kinds whose resolution is a plain field copy. Kinds the resolver
//! does not understand (grammar-internal intermediates) are tolerated and
//! resolve to nothing.

use vstd::prelude::*;
use crate::interval::{Grain, Interval, interval_in_range};
use crate::walker::Constraint;

verus! {

/// How exact a stated value is claimed to be.
#[derive(Clone, Copy, Debug, PartialEq, Eq, Structural)]
pub enum Precision {
    Approximate,
    Exact,
}

/// The calendar nature a datetime expression was declared with.
#[derive(Clone, Copy, Debug, PartialEq, Eq, Structural)]
pub enum DatetimeKind {
    Date,
    Time,
    DateTime,
}

/// Which edge of a resolved interval anchors an open-ended output. With
/// `End`, `only_interval` keeps the anchor at an explicit end only: an
/// interval without one anchors at its start instead of the end of its grain.
#[derive(Clone, Copy, Debug, PartialEq, Eq, Structural)]
pub enum Bound {
    Start,
    End { only_interval: bool },
}

/// Whether an open-ended output extends after or before its anchor.
#[derive(Clone, Copy, Debug, PartialEq, Eq, Structural)]
pub enum Direction {
    After,
    Before,
}

/// The bound and direction of an open-ended datetime expression.
#[derive(Clone, Copy, Debug, PartialEq, Eq, Structural)]
pub struct BoundedDirection {
    pub bound: Bound,
    pub direction: Direction,
}

/// Flags the grammar attaches to the form of a datetime expression. An absent
/// `not_immediate` means the expression may resolve to the current interval.
#[derive(Clone, Copy, Debug, PartialEq)]
pub struct Form {
    pub not_immediate: Option<bool>,
}

impl Form {
    /// Whether the expression demands a strictly non-current occurrence, if
    /// the grammar said so at all.
    pub fn not_immediate(&self) -> (r: Option<bool>)
        ensures
            r == self.not_immediate,
    {
        self.not_immediate
    }
}

/// A datetime expression: the constraint that generates its candidate
/// intervals, and the policy flags the resolver applies and forwards.
#[derive(Clone, Debug, PartialEq)]
pub struct DatetimeValue {
    pub constraint: Constraint,
    pub form: Form,
    pub direction: Option<BoundedDirection>,
    pub precision: Precision,
    pub latent: bool,
    pub datetime_kind: DatetimeKind,
}

/// The bit pattern of a 64-bit IEEE 754 number, carried verbatim.
#[derive(Clone, Copy, Debug, PartialEq, Eq, Structural)]
pub struct FloatBits64(pub u64);

/// The bit pattern of a 32-bit IEEE 754 number, carried verbatim.
#[derive(Clone, Copy, Debug, PartialEq, Eq, Structural)]
pub struct FloatBits32(pub u32);

/// A recognized integer.
#[derive(Clone, Copy, Debug, PartialEq, Eq, Structural)]
pub struct IntegerValue {
    pub value: i64,
}

/// A recognized non-integral number.
#[derive(Clone, Copy, Debug, PartialEq, Eq, Structural)]
pub struct FloatValue {
    pub value: FloatBits64,
}

/// A recognized number, integral or not.
#[derive(Clone, Copy, Debug, PartialEq, Eq, Structural)]
pub enum NumberValue {
    Integer(IntegerValue),
    Float(FloatValue),
}

/// A recognized ordinal ("third", "42nd").
#[derive(Clone, Copy, Debug, PartialEq, Eq, Structural)]
pub struct OrdinalValue {
    pub value: i64,
}

/// A recognized amount of money.
#[derive(Clone, Debug, PartialEq)]
pub struct AmountOfMoneyValue {
    pub value: FloatBits32,
    pub precision: Precision,
    pub unit: Option<String>,
}

/// A recognized temperature.
#[derive(Clone, Debug, PartialEq)]
pub struct TemperatureValue {
    pub value: FloatBits32,
    pub unit: Option<String>,
    pub latent: bool,
}

/// One component of a period: a quantity of one grain.
#[derive(Clone, Copy, Debug, PartialEq, Eq, Structural)]
pub struct PeriodComp {
    pub grain: Grain,
    pub quantity: i64,
}

/// A period of calendar time, as a sum of per-grain quantities.
#[derive(Clone, Debug, PartialEq)]
pub struct Period {
    pub comps: Vec<PeriodComp>,
}

impl Period {
    /// A fresh period with the same components.
    pub fn duplicate(&self) -> (r: Period)
        ensures
            r.comps@ == self.comps@,
    {
        let mut comps: Vec<PeriodComp> = Vec::new();
        let mut i: usize = 0;
        while i < self.comps.len()
            invariant
                i <= self.comps.len(),
                comps@ == self.comps@.take(i as int),
            decreases self.comps.len() - i,
        {
            comps.push(self.comps[i]);
            i = i + 1;
            proof {
                assert(comps@ =~= self.comps@.take(i as int));
            }
        }
        proof {
            assert(comps@ =~= self.comps@);
        }
        Period { comps }
    }
}

/// A recognized duration.
#[derive(Clone, Debug, PartialEq)]
pub struct DurationValue {
    pub period: Period,
    pub precision: Precision,
}

/// A recognized percentage.
#[derive(Clone, Copy, Debug, PartialEq, Eq, Structural)]
pub struct PercentageValue(pub FloatBits64);

/// A grammar-internal cycle of one grain; not resolvable on its own.
#[derive(Clone, Copy, Debug, PartialEq, Eq, Structural)]
pub struct CycleValue {
    pub grain: Grain,
}

/// A grammar-internal duration unit; not resolvable on its own.
#[derive(Clone, Copy, Debug, PartialEq, Eq, Structural)]
pub struct UnitOfDurationValue {
    pub grain: Grain,
}

/// One abstract semantic value, tagged by kind.
#[derive(Clone, Debug, PartialEq)]
pub enum Dimension {
    Datetime(DatetimeValue),
    Number(NumberValue),
    Ordinal(OrdinalValue),
    AmountOfMoney(AmountOfMoneyValue),
    Temperature(TemperatureValue),
    Duration(DurationValue),
    Percentage(PercentageValue),
    Cycle(CycleValue),
    UnitOfDuration(UnitOfDurationValue),
}

/// Every candidate interval of a datetime expression is one the calendar
/// collaborator can represent; non-temporal kinds carry no such obligation.
pub open spec fn dimension_in_range(dim: Dimension) -> bool {
    match dim {
        Dimension::Datetime(dv) => {
            &&& (forall|i: int| 0 <= i < dv.constraint.forward@.len()
                ==> interval_in_range(#[trigger] dv.constraint.forward@[i]))
            &&& (forall|i: int| 0 <= i < dv.constraint.backward@.len()
                ==> interval_in_range(#[trigger] dv.constraint.backward@[i]))
        },
        _ => true,
    }
}

/// Runtime check for `dimension_in_range`, for callers that cannot prove it.
pub fn check_dimension_in_range(dim: &Dimension) -> (r: bool)
    ensures
        r == dimension_in_range(*dim),
{
    match dim {
        Dimension::Datetime(dv) => {
            all_in_range(&dv.constraint.forward) && all_in_range(&dv.constraint.backward)
        },
        _ => true,
    }
}

/// Runtime check that every interval of a list is representable.
fn all_in_range(items: &Vec<Interval>) -> (r: bool)
    ensures
        r == (forall|i: int| 0 <= i < items@.len() ==> interval_in_range(#[trigger] items@[i])),
{
    let mut i: usize = 0;
    while i < items.len()
        invariant
            i <= items.len(),
            forall|j: int| 0 <= j < i ==> interval_in_range(#[trigger] items@[j]),
        decreases items.len() - i,
    {
        if !crate::interval::check_interval_in_range(&items[i]) {
            return false;
        }
        i = i + 1;
    }
    true
}

} // verus!
