//! Calendar arithmetic the resolution core needs from its collaborator:
//! where a grain ends, whether two spans share any time, and the default
//! admissible window around a reference.
//!
//! Moments are instants (epoch seconds), so every grain up to a week is a
//! fixed number of seconds. Month-sized grains follow the civil calendar;
//! that stepping is chrono's, on the UTC calendar, so it is a pure function
//! of its arguments and is named `month_add` below.

use vstd::prelude::*;
use chrono::TimeZone;
use crate::interval::{Grain, Interval, Moment, interval_in_range, moment_in_range,
    MAX_EPOCH_SECS, MIN_EPOCH_SECS};

verus! {

/// The instant `months` civil months after `secs`, on the UTC calendar: same
/// day of month and time of day, with the day clamped to the target month's
/// length. Computed only by chrono; named here so contracts can speak of it.
pub uninterp spec fn month_add(secs: i64, months: i64) -> i64;

/// Relies on chrono's `DateTime::<Utc>::checked_add_months`: steps `months`
/// civil months forward on the UTC calendar. The accepted range keeps the
/// datetime far inside chrono's representable years, so the conversion and
/// the step cannot fail.
#[verifier::external_body]
fn add_months_utc(secs: i64, months: u32) -> (r: i64)
    requires
        MIN_EPOCH_SECS <= secs <= MAX_EPOCH_SECS,
        months <= 12,
    ensures
        r == month_add(secs, months as i64),
{
    let dt = chrono::Utc.timestamp_opt(secs, 0).unwrap();
    dt.checked_add_months(chrono::Months::new(months)).unwrap().timestamp()
}

/// The instant one `grain` after `m`: a fixed stride for second through week,
/// a civil-calendar step for month, quarter and year.
pub open spec fn spec_grain_end(m: Moment, grain: Grain) -> int {
    match grain {
        Grain::Second => m.0 + 1,
        Grain::Minute => m.0 + 60,
        Grain::Hour => m.0 + 3600,
        Grain::Day => m.0 + 86400,
        Grain::Week => m.0 + 604800,
        Grain::Month => month_add(m.0, 1) as int,
        Grain::Quarter => month_add(m.0, 3) as int,
        Grain::Year => month_add(m.0, 12) as int,
    }
}

/// The moment one `grain` after `start`; see `spec_grain_end`.
pub(crate) fn grain_end(start: Moment, grain: Grain) -> (r: Moment)
    requires
        moment_in_range(start),
    ensures
        r.0 == spec_grain_end(start, grain),
{
    match grain {
        Grain::Second => Moment(start.0 + 1),
        Grain::Minute => Moment(start.0 + 60),
        Grain::Hour => Moment(start.0 + 3600),
        Grain::Day => Moment(start.0 + 86400),
        Grain::Week => Moment(start.0 + 604800),
        Grain::Month => Moment(add_months_utc(start.0, 1)),
        Grain::Quarter => Moment(add_months_utc(start.0, 3)),
        Grain::Year => Moment(add_months_utc(start.0, 12)),
    }
}

/// The instant an interval ends: its explicit end, or one grain after its
/// start when it has none (the span then covers exactly one grain).
pub open spec fn spec_end_moment(iv: Interval) -> int {
    match iv.end {
        Some(e) => e.0 as int,
        None => spec_grain_end(iv.start, iv.grain),
    }
}

/// Whether two spans `[start, end)` share any instant: the later start falls
/// before the earlier end.
pub open spec fn spec_intersects(a: Interval, b: Interval) -> bool {
    let lo = if a.start.0 >= b.start.0 { a.start.0 as int } else { b.start.0 as int };
    let hi_a = spec_end_moment(a);
    let hi_b = spec_end_moment(b);
    lo < (if hi_a <= hi_b { hi_a } else { hi_b })
}

/// Whether the two spans share any instant; see `spec_intersects`.
pub(crate) fn intersect_nonempty(a: &Interval, b: &Interval) -> (r: bool)
    requires
        interval_in_range(*a),
        interval_in_range(*b),
    ensures
        r == spec_intersects(*a, *b),
{
    let end_a: Moment = match a.end {
        Some(e) => e,
        None => grain_end(a.start, a.grain),
    };
    let end_b: Moment = match b.end {
        Some(e) => e,
        None => grain_end(b.start, b.grain),
    };
    let lo: i64 = if a.start.0 >= b.start.0 { a.start.0 } else { b.start.0 };
    let hi: i64 = if end_a.0 <= end_b.0 { end_a.0 } else { end_b.0 };
    lo < hi
}

/// The default admissible (min, max) window around the reference `now`: the
/// whole representable range, at the reference's own grain. A caller that
/// wants a narrower window builds its context with explicit bounds.
pub(crate) fn default_window(now: &Interval) -> (r: (Interval, Interval))
    ensures
        r.0 == (Interval { start: Moment(MIN_EPOCH_SECS), end: None::<Moment>, grain: now.grain }),
        r.1 == (Interval { start: Moment(MAX_EPOCH_SECS), end: None::<Moment>, grain: now.grain }),
{
    (
        Interval { start: Moment(MIN_EPOCH_SECS), end: None, grain: now.grain },
        Interval { start: Moment(MAX_EPOCH_SECS), end: None, grain: now.grain },
    )
}

} // verus!
