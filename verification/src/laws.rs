//! The behavioural laws of the resolution engine, proved once and for all
//! against the specification functions that `resolve`'s contract pins its
//! result to.

use vstd::prelude::*;
use crate::context::{
    spec_datetime_output, spec_first_hit, spec_not_immediate, spec_resolve_datetime,
    spec_anchor,
};
use crate::calendar::spec_intersects;
use crate::dimension::{Bound, BoundedDirection, DatetimeKind, DatetimeValue, Direction};
use crate::interval::{Interval, Moment};
use crate::output::{DatetimeIntervalKind, Output, spec_span_anomaly};

verus! {

/// The moment a resolved output is anchored at: the payload moment of an
/// open-ended range, or the moment of a plain datetime.
pub open spec fn spec_payload_moment(out: Output) -> Option<Moment> {
    match out {
        Output::DatetimeInterval(o) => match o.interval_kind {
            DatetimeIntervalKind::After(p) => Some(p.moment),
            DatetimeIntervalKind::Before(p) => Some(p.moment),
            DatetimeIntervalKind::Between { .. } => None,
        },
        Output::Datetime(p) => Some(p.moment),
        _ => None,
    }
}

/// Determinism: for one reference and one datetime expression the resolved
/// output is a single value; any two results of the same resolution agree.
pub proof fn lemma_resolve_deterministic(
    dv: DatetimeValue,
    reference: Interval,
    r1: Option<Output>,
    r2: Option<Output>,
)
    requires
        r1 == spec_resolve_datetime(dv, reference),
        r2 == spec_resolve_datetime(dv, reference),
    ensures
        r1 == r2,
{
}

/// Not-immediate skip: when the expression demands a strictly non-current
/// occurrence and its first forward candidate intersects the reference, the
/// resolution comes from the second forward candidate, never the first.
pub proof fn lemma_not_immediate_skip(dv: DatetimeValue, reference: Interval)
    requires
        spec_not_immediate(dv.form),
        dv.constraint.forward@.len() >= 2,
        spec_intersects(dv.constraint.forward@[0], reference),
    ensures
        spec_resolve_datetime(dv, reference)
            == Some(spec_datetime_output(dv, dv.constraint.forward@[1])),
{
}

/// Forward before backward: once the forward side has a candidate to offer
/// (after the not-immediate skip, if any), the backward candidates play no
/// part: two expressions that differ only there resolve alike, to a value.
pub proof fn lemma_forward_before_backward(
    dv1: DatetimeValue,
    dv2: DatetimeValue,
    reference: Interval,
)
    requires
        dv1.constraint.forward@ == dv2.constraint.forward@,
        dv1.form == dv2.form,
        dv1.direction == dv2.direction,
        dv1.precision == dv2.precision,
        dv1.latent == dv2.latent,
        dv1.datetime_kind == dv2.datetime_kind,
        dv1.constraint.forward@.len() >= 1,
        spec_not_immediate(dv1.form) && spec_first_hit(dv1.constraint.forward@, reference)
            ==> dv1.constraint.forward@.len() >= 2,
    ensures
        spec_resolve_datetime(dv1, reference) == spec_resolve_datetime(dv2, reference),
        spec_resolve_datetime(dv1, reference) is Some,
{
}

/// Backward fallback: when the forward sequence is empty, the resolution
/// comes from the first backward candidate.
pub proof fn lemma_backward_fallback(dv: DatetimeValue, reference: Interval)
    requires
        dv.constraint.forward@.len() == 0,
        dv.constraint.backward@.len() > 0,
    ensures
        spec_resolve_datetime(dv, reference)
            == Some(spec_datetime_output(dv, dv.constraint.backward@[0])),
{
}

/// Exhaustion: when both candidate sequences are empty, nothing is resolved.
pub proof fn lemma_exhaustion(dv: DatetimeValue, reference: Interval)
    requires
        dv.constraint.forward@.len() == 0,
        dv.constraint.backward@.len() == 0,
    ensures
        spec_resolve_datetime(dv, reference) is None,
{
}

/// Bound selection: a start bound with direction after maps a chosen interval
/// to an open-ended range extending after the interval's start moment.
pub proof fn lemma_bound_start_after(dv: DatetimeValue, iv: Interval)
    requires
        dv.direction == Some((BoundedDirection {
            bound: Bound::Start,
            direction: Direction::After,
        })),
    ensures
        spec_datetime_output(dv, iv) matches Output::DatetimeInterval(o)
            && o.interval_kind matches DatetimeIntervalKind::After(p)
            && p.moment == iv.start,
{
}

/// End bound with `only_interval`: an interval without an explicit end
/// anchors at its own start, not at the end of its grain.
pub proof fn lemma_end_only_interval(dv: DatetimeValue, iv: Interval)
    requires
        iv.end is None,
        dv.direction matches Some(bd) && bd.bound == (Bound::End { only_interval: true }),
    ensures
        spec_anchor(iv, (Bound::End { only_interval: true })) == iv.start,
        spec_payload_moment(spec_datetime_output(dv, iv)) == Some(iv.start),
{
}

/// Span anomaly passthrough: an expression declared `Time` whose chosen
/// interval carries an explicit end still resolves, to the closed span
/// between the interval's ends; the mismatch is observable as the span
/// anomaly, never as a missing or reshaped value.
pub proof fn lemma_span_anomaly_passthrough(dv: DatetimeValue, reference: Interval)
    requires
        dv.datetime_kind == DatetimeKind::Time,
        dv.direction is None,
        !spec_not_immediate(dv.form),
        dv.constraint.forward@.len() > 0,
        dv.constraint.forward@[0].end is Some,
    ensures
        spec_resolve_datetime(dv, reference) matches Some(out)
            && (spec_span_anomaly(out) && (out matches Output::DatetimeInterval(o)
                && (o.interval_kind matches DatetimeIntervalKind::Between { start, end, .. }
                    && start == dv.constraint.forward@[0].start
                    && Some(end) == dv.constraint.forward@[0].end))),
{
}

} // verus!
