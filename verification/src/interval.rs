//! Points and spans of calendar time, as the resolution core reads them.
//!
//! A moment is a single point in time, held as whole seconds since the Unix
//! epoch; a span carries an optional end and the grain it is aligned to. The
//! calendar arithmetic itself (grain alignment, intersection) is the business
//! of the calendar collaborator; these types only carry what the resolution
//! policies read and copy.

use vstd::prelude::*;

verus! {

/// The unit of calendar granularity an interval is aligned to.
#[derive(Clone, Copy, Debug, PartialEq, Eq, Structural)]
pub enum Grain {
    Year,
    Quarter,
    Month,
    Week,
    Day,
    Hour,
    Minute,
    Second,
}

/// A single point in time: whole seconds since the Unix epoch.
#[derive(Clone, Copy, Debug, PartialEq, Eq, Structural)]
pub struct Moment(pub i64);

/// A span of time `[start, end)` aligned to a grain. An absent end means the
/// span covers exactly one grain starting at `start`.
#[derive(Clone, Copy, Debug, PartialEq)]
pub struct Interval {
    pub start: Moment,
    pub end: Option<Moment>,
    pub grain: Grain,
}

impl Interval {
    /// The interval of one `grain` beginning at `start`, with no explicit end.
    pub fn starting_at(start: Moment, grain: Grain) -> (r: Interval)
        ensures
            r == (Interval { start, end: None::<Moment>, grain }),
    {
        Interval { start, end: None, grain }
    }
}

/// The widest stretch of epoch seconds the resolver accepts; it covers the
/// years 1970 +/- 272, well beyond the 1970-2038 window the context
/// constructors document, and keeps every moment handed to the calendar
/// collaborator inside the range its clock arithmetic accepts.
pub const MIN_EPOCH_SECS: i64 = -8589934592;

/// Upper end of the accepted stretch of epoch seconds; see `MIN_EPOCH_SECS`.
pub const MAX_EPOCH_SECS: i64 = 8589934592;

/// A moment the calendar collaborator can represent.
pub open spec fn moment_in_range(m: Moment) -> bool {
    MIN_EPOCH_SECS <= m.0 <= MAX_EPOCH_SECS
}

/// An interval whose start and end the calendar collaborator can represent.
pub open spec fn interval_in_range(iv: Interval) -> bool {
    &&& moment_in_range(iv.start)
    &&& (iv.end matches Some(e) ==> moment_in_range(e))
}

/// Runtime check for `moment_in_range`, for callers that cannot prove it.
pub fn check_moment_in_range(m: &Moment) -> (r: bool)
    ensures
        r == moment_in_range(*m),
{
    MIN_EPOCH_SECS <= m.0 && m.0 <= MAX_EPOCH_SECS
}

/// Runtime check for `interval_in_range`, for callers that cannot prove it.
pub fn check_interval_in_range(iv: &Interval) -> (r: bool)
    ensures
        r == interval_in_range(*iv),
{
    check_moment_in_range(&iv.start) && (match &iv.end {
        Some(e) => check_moment_in_range(e),
        None => true,
    })
}

} // verus!
