//! The resolution engine: a per-request context and the `resolve` operation
//! that turns one abstract semantic value into one concrete output.
//!
//! For a datetime expression the engine drives the constraint's candidate
//! walker: it takes the first forward candidate, discards it when the
//! expression demands a strictly non-current occurrence and the candidate
//! intersects the reference, falls back to the first backward candidate when
//! the forward side is exhausted, and maps the chosen interval into an output
//! according to the bound and direction policy. The whole resolution is a
//! pure function of the context and the value; `spec_resolve_datetime` states
//! it, and `resolve` is proved to return exactly that.

use vstd::prelude::*;
use crate::calendar::{
    default_window, grain_end, intersect_nonempty, spec_grain_end, spec_intersects,
};
use crate::dimension::{
    Bound, DatetimeValue, Dimension, Direction, Form, NumberValue, dimension_in_range,
};
use crate::interval::{Grain, Interval, Moment, interval_in_range, MAX_EPOCH_SECS,
    MIN_EPOCH_SECS};
use crate::output::{
    AmountOfMoneyOutput, DatetimeIntervalKind, DatetimeIntervalOutput, DatetimeOutput,
    DurationOutput, FloatOutput, IntegerOutput, OrdinalOutput, Output, PercentageOutput,
    TemperatureOutput,
};

verus! {

/// A context able to resolve abstract values of kind `V` into concrete
/// outputs of kind `O`.
pub trait ParsingContext<V> {
    type O;

    /// The inputs this context is prepared to resolve.
    spec fn accepts(&self, value: &V) -> bool;

    /// Produce the concrete value for `value`, or nothing when this context
    /// cannot resolve its kind.
    fn resolve(&self, value: &V) -> (r: Option<Self::O>)
        requires
            self.accepts(value),
    ;
}

/// A context that resolves every value to itself.
pub struct IdentityContext<V: Clone> {
    _phantom: core::marker::PhantomData<V>,
}

impl<V: Clone> IdentityContext<V> {
    /// A fresh identity context.
    pub fn new() -> (r: IdentityContext<V>) {
        IdentityContext { _phantom: core::marker::PhantomData }
    }
}

impl<V: Clone> ParsingContext<V> for IdentityContext<V> {
    type O = V;

    open spec fn accepts(&self, value: &V) -> bool {
        true
    }

    fn resolve(&self, value: &V) -> (r: Option<V>)
        ensures
            r matches Some(v) && cloned(*value, v),
    {
        Some(value.clone())
    }
}

/// The per-request bundle of the reference "now" interval and the admissible
/// min/max resolution window. Immutable once constructed.
#[derive(Clone, Copy, Debug, PartialEq)]
pub struct ResolverContext {
    pub reference: Interval,
    pub min: Interval,
    pub max: Interval,
}

impl ResolverContext {
    /// A context anchored at a one-second interval starting at `secs` epoch
    /// seconds, with the min/max window derived exactly as `for_reference`
    /// derives it. The accepted range comfortably covers 1970 through 2038,
    /// so the constructor is usable wherever the platform clock is.
    pub fn from_secs(secs: i64) -> (r: ResolverContext)
        requires
            MIN_EPOCH_SECS <= secs <= MAX_EPOCH_SECS,
        ensures
            r.reference == (Interval {
                start: Moment(secs),
                end: None::<Moment>,
                grain: Grain::Second,
            }),
            r.min == (Interval {
                start: Moment(MIN_EPOCH_SECS),
                end: None::<Moment>,
                grain: Grain::Second,
            }),
            r.max == (Interval {
                start: Moment(MAX_EPOCH_SECS),
                end: None::<Moment>,
                grain: Grain::Second,
            }),
    {
        ResolverContext::for_reference(Interval::starting_at(Moment(secs), Grain::Second))
    }

    /// A context anchored at `now`, with the min/max window the default
    /// policy derives from it: the whole representable range.
    pub fn for_reference(now: Interval) -> (r: ResolverContext)
        requires
            interval_in_range(now),
        ensures
            r.reference == now,
            r.min == (Interval { start: Moment(MIN_EPOCH_SECS), end: None::<Moment>, grain: now.grain }),
            r.max == (Interval { start: Moment(MAX_EPOCH_SECS), end: None::<Moment>, grain: now.grain }),
    {
        let (min, max) = default_window(&now);
        ResolverContext { reference: now, min, max }
    }

    /// A context with the given intervals, unrestricted: the caller is
    /// responsible for keeping `min <= now <= max`; no validation is done.
    /// The resolver itself never reads the window, so a violated invariant
    /// cannot reach the verified resolution; it binds only callers that
    /// consult `min` and `max` themselves.
    pub fn new(now: Interval, min: Interval, max: Interval) -> (r: ResolverContext)
        ensures
            r.reference == now,
            r.min == min,
            r.max == max,
    {
        ResolverContext { reference: now, min, max }
    }
}

/// Whether the expression demands a strictly non-current occurrence.
pub open spec fn spec_not_immediate(form: Form) -> bool {
    form.not_immediate == Some(true)
}

/// Whether the first forward candidate exists and intersects the reference:
/// the condition under which a not-immediate expression discards it.
pub open spec fn spec_first_hit(fwd: Seq<Interval>, reference: Interval) -> bool {
    fwd.len() > 0 && spec_intersects(fwd[0], reference)
}

/// The candidate interval the walker policy settles on: the first forward
/// candidate; the one after it when the expression is not-immediate and the
/// first intersects the reference (`first_hit`); the first backward candidate
/// when the forward side yields nothing; nothing when both sides are empty.
pub open spec fn spec_selected(
    fwd: Seq<Interval>,
    bwd: Seq<Interval>,
    not_immediate: bool,
    first_hit: bool,
) -> Option<Interval> {
    if fwd.len() == 0 {
        if bwd.len() == 0 {
            None
        } else {
            Some(bwd[0])
        }
    } else if not_immediate && first_hit {
        if fwd.len() >= 2 {
            Some(fwd[1])
        } else if bwd.len() > 0 {
            Some(bwd[0])
        } else {
            None
        }
    } else {
        Some(fwd[0])
    }
}

/// The anchor moment a bound picks out of a chosen interval: the start; the
/// explicit end; for `End` without an explicit end, the start itself when
/// `only_interval` is set, else the end of the start's grain.
pub open spec fn spec_anchor(iv: Interval, bound: Bound) -> Moment {
    match bound {
        Bound::Start => iv.start,
        Bound::End { only_interval } => match iv.end {
            Some(e) => e,
            None => if only_interval {
                iv.start
            } else {
                Moment(spec_grain_end(iv.start, iv.grain) as i64)
            },
        },
    }
}

/// The output a datetime expression maps a chosen interval to: an open-ended
/// range when a direction is present, a closed span when the interval has an
/// explicit end, a plain moment otherwise. The expression's precision, latent
/// and kind flags are forwarded verbatim; an open-ended range copies its
/// outer kind from the payload it wraps.
pub open spec fn spec_datetime_output(dv: DatetimeValue, iv: Interval) -> Output {
    match dv.direction {
        Some(bd) => {
            let payload = DatetimeOutput {
                moment: spec_anchor(iv, bd.bound),
                grain: iv.grain,
                precision: dv.precision,
                latent: dv.latent,
                datetime_kind: dv.datetime_kind,
            };
            Output::DatetimeInterval(DatetimeIntervalOutput {
                interval_kind: match bd.direction {
                    Direction::After => DatetimeIntervalKind::After(payload),
                    Direction::Before => DatetimeIntervalKind::Before(payload),
                },
                datetime_kind: payload.datetime_kind,
            })
        },
        None => match iv.end {
            Some(e) => Output::DatetimeInterval(DatetimeIntervalOutput {
                interval_kind: DatetimeIntervalKind::Between {
                    start: iv.start,
                    end: e,
                    precision: dv.precision,
                    latent: dv.latent,
                },
                datetime_kind: dv.datetime_kind,
            }),
            None => Output::Datetime(DatetimeOutput {
                moment: iv.start,
                grain: iv.grain,
                precision: dv.precision,
                latent: dv.latent,
                datetime_kind: dv.datetime_kind,
            }),
        },
    }
}

/// The whole temporal resolution: the output the chosen candidate maps to,
/// or nothing when both candidate sequences are exhausted.
pub open spec fn spec_resolve_datetime(dv: DatetimeValue, reference: Interval) -> Option<Output> {
    match spec_selected(
        dv.constraint.forward@,
        dv.constraint.backward@,
        spec_not_immediate(dv.form),
        spec_first_hit(dv.constraint.forward@, reference),
    ) {
        Some(iv) => Some(spec_datetime_output(dv, iv)),
        None => None,
    }
}

impl ParsingContext<Dimension> for ResolverContext {
    type O = Output;

    open spec fn accepts(&self, dim: &Dimension) -> bool {
        *dim matches Dimension::Datetime(_) ==> {
            &&& interval_in_range(self.reference)
            &&& dimension_in_range(*dim)
        }
    }

    fn resolve(&self, dim: &Dimension) -> (r: Option<Output>)
        ensures
            *dim matches Dimension::Datetime(dv) ==> {
                &&& r == spec_resolve_datetime(dv, self.reference)
                &&& (dv.constraint.forward@.len() == 0 && dv.constraint.backward@.len() == 0
                    ==> r is None)
                &&& (r is None ==> dv.constraint.backward@.len() == 0
                    && dv.constraint.forward@.len() <= 1
                    && (dv.constraint.forward@.len() == 1 ==> spec_not_immediate(dv.form)))
                &&& (dv.constraint.backward@.len() > 0 || dv.constraint.forward@.len() >= 2
                    || (dv.constraint.forward@.len() == 1 && !spec_not_immediate(dv.form))
                    ==> r is Some)
            },
            *dim matches Dimension::Number(NumberValue::Integer(v))
                ==> r == Some(Output::Integer(IntegerOutput(v.value))),
            *dim matches Dimension::Number(NumberValue::Float(v))
                ==> r == Some(Output::Float(FloatOutput(v.value))),
            *dim matches Dimension::Ordinal(o)
                ==> r == Some(Output::Ordinal(OrdinalOutput(o.value))),
            *dim matches Dimension::AmountOfMoney(a)
                ==> r == Some(Output::AmountOfMoney((AmountOfMoneyOutput {
                    value: a.value,
                    precision: a.precision,
                    unit: a.unit,
                }))),
            *dim matches Dimension::Temperature(t)
                ==> r == Some(Output::Temperature((TemperatureOutput {
                    value: t.value,
                    unit: t.unit,
                    latent: t.latent,
                }))),
            *dim matches Dimension::Duration(d)
                ==> r matches Some(Output::Duration(o)) && o.precision == d.precision
                    && o.period.comps@ == d.period.comps@,
            *dim matches Dimension::Percentage(p)
                ==> r == Some(Output::Percentage(PercentageOutput(p.0))),
            *dim matches Dimension::Cycle(_) ==> r is None,
            *dim matches Dimension::UnitOfDuration(_) ==> r is None,
    {
        match dim {
            Dimension::Datetime(dv) => {
                let ghost fwd = dv.constraint.forward@;
                let ghost bwd = dv.constraint.backward@;
                let ghost hit = spec_first_hit(fwd, self.reference);
                let mut walker = dv.constraint.to_walker(&self.reference, self);
                let not_immediate = dv.form.not_immediate().unwrap_or(false);
                let first = walker.forward.next();
                let chosen: Option<Interval> = match first {
                    Some(h) => {
                        proof {
                            assert(h == fwd[0]);
                            assert(interval_in_range(fwd[0]));
                        }
                        if not_immediate && intersect_nonempty(&h, &self.reference) {
                            match walker.forward.next() {
                                Some(h2) => {
                                    proof {
                                        assert(h2 == fwd.skip(1)[0]);
                                        assert(fwd.skip(1)[0] == fwd[1]);
                                    }
                                    Some(h2)
                                },
                                None => walker.backward.next(),
                            }
                        } else {
                            Some(h)
                        }
                    },
                    None => walker.backward.next(),
                };
                proof {
                    assert(not_immediate == spec_not_immediate(dv.form));
                    assert(chosen == spec_selected(fwd, bwd, not_immediate, hit));
                }
                match chosen {
                    None => None,
                    Some(interval) => {
                        proof {
                            assert(interval_in_range(interval)) by {
                                if fwd.len() == 0 {
                                    assert(interval == bwd[0]);
                                } else if not_immediate && hit {
                                    if fwd.len() >= 2 {
                                        assert(interval == fwd[1]);
                                    } else {
                                        assert(interval == bwd[0]);
                                    }
                                } else {
                                    assert(interval == fwd[0]);
                                }
                            }
                        }
                        let out: Output = match dv.direction {
                            Some(bd) => {
                                let anchor: Moment = match bd.bound {
                                    Bound::Start => interval.start,
                                    Bound::End { only_interval } => match interval.end {
                                        Some(e) => e,
                                        None => {
                                            if only_interval {
                                                interval.start
                                            } else {
                                                grain_end(interval.start, interval.grain)
                                            }
                                        },
                                    },
                                };
                                proof {
                                    assert(anchor == spec_anchor(interval, bd.bound));
                                }
                                let payload = DatetimeOutput {
                                    moment: anchor,
                                    grain: interval.grain,
                                    precision: dv.precision,
                                    latent: dv.latent,
                                    datetime_kind: dv.datetime_kind,
                                };
                                let kind = match bd.direction {
                                    Direction::After => DatetimeIntervalKind::After(payload),
                                    Direction::Before => DatetimeIntervalKind::Before(payload),
                                };
                                Output::DatetimeInterval(DatetimeIntervalOutput {
                                    interval_kind: kind,
                                    datetime_kind: payload.datetime_kind,
                                })
                            },
                            None => match interval.end {
                                Some(e) => Output::DatetimeInterval(DatetimeIntervalOutput {
                                    interval_kind: DatetimeIntervalKind::Between {
                                        start: interval.start,
                                        end: e,
                                        precision: dv.precision,
                                        latent: dv.latent,
                                    },
                                    datetime_kind: dv.datetime_kind,
                                }),
                                None => Output::Datetime(DatetimeOutput {
                                    moment: interval.start,
                                    grain: interval.grain,
                                    precision: dv.precision,
                                    latent: dv.latent,
                                    datetime_kind: dv.datetime_kind,
                                }),
                            },
                        };
                        proof {
                            assert(out == spec_datetime_output(*dv, interval));
                        }
                        Some(out)
                    },
                }
            },
            Dimension::Number(n) => match n {
                NumberValue::Integer(v) => Some(Output::Integer(IntegerOutput(v.value))),
                NumberValue::Float(v) => Some(Output::Float(FloatOutput(v.value))),
            },
            Dimension::Ordinal(o) => Some(Output::Ordinal(OrdinalOutput(o.value))),
            Dimension::AmountOfMoney(a) => Some(Output::AmountOfMoney(AmountOfMoneyOutput {
                value: a.value,
                precision: a.precision,
                unit: clone_unit(&a.unit),
            })),
            Dimension::Temperature(t) => Some(Output::Temperature(TemperatureOutput {
                value: t.value,
                unit: clone_unit(&t.unit),
                latent: t.latent,
            })),
            Dimension::Duration(d) => Some(Output::Duration(DurationOutput {
                period: d.period.duplicate(),
                precision: d.precision,
            })),
            Dimension::Percentage(p) => Some(Output::Percentage(PercentageOutput(p.0))),
            Dimension::Cycle(_) => None,
            Dimension::UnitOfDuration(_) => None,
        }
    }
}

/// A fresh copy of an optional unit name, equal to the original.
fn clone_unit(unit: &Option<String>) -> (r: Option<String>)
    ensures
        r == *unit,
{
    match unit {
        Some(u) => Some(u.clone()),
        None => None,
    }
}

} // verus!
