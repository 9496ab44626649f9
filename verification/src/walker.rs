//! The candidate walker: the paired forward/backward sequences of concrete
//! intervals a temporal constraint can resolve to.
//!
//! The grammar layer anchors a constraint to the reference point and hands the
//! core its candidates already ordered: forward candidates at or after the
//! reference in increasing order of start, backward candidates before the
//! reference in decreasing order of start. The core pulls them one at a time
//! and never looks further than it needs: at most two pulls forward and one
//! pull backward per resolution.

use vstd::prelude::*;
use crate::interval::Interval;
use crate::context::ResolverContext;

verus! {

/// One candidate sequence, pulled from front to back. `next` hands out the
/// remaining candidates in order, one per call, without restarting.
pub struct CandidateSeq<'a> {
    items: &'a Vec<Interval>,
    pos: usize,
}

impl<'a> CandidateSeq<'a> {
    /// The candidates not yet handed out, in the order they will come.
    pub closed spec fn remaining(self) -> Seq<Interval> {
        self.items@.skip(self.pos as int)
    }

    /// The position never runs past the backing candidates.
    pub closed spec fn wf(self) -> bool {
        self.pos <= self.items@.len()
    }

    /// A sequence that will hand out all of `items`, front to back.
    pub fn new(items: &'a Vec<Interval>) -> (r: CandidateSeq<'a>)
        ensures
            r.wf(),
            r.remaining() == items@,
    {
        let r = CandidateSeq { items, pos: 0 };
        proof {
            assert(r.remaining() =~= items@);
        }
        r
    }

    /// Pull the next candidate: the head of what remains, or `None` once the
    /// sequence is exhausted.
    pub fn next(&mut self) -> (r: Option<Interval>)
        requires
            old(self).wf(),
        ensures
            final(self).wf(),
            old(self).remaining().len() == 0 ==> r is None
                && final(self).remaining() == old(self).remaining(),
            old(self).remaining().len() > 0 ==> r == Some(old(self).remaining()[0])
                && final(self).remaining() == old(self).remaining().skip(1),
    {
        if self.pos < self.items.len() {
            let head = self.items[self.pos];
            self.pos = self.pos + 1;
            proof {
                assert(self.remaining() =~= old(self).remaining().skip(1));
            }
            Some(head)
        } else {
            proof {
                assert(self.remaining() =~= old(self).remaining());
            }
            None
        }
    }
}

/// The paired lazy sequences derived from a constraint and a reference.
pub struct Walker<'a> {
    pub forward: CandidateSeq<'a>,
    pub backward: CandidateSeq<'a>,
}

/// An anchored temporal constraint, as the grammar layer hands it over: the
/// ordered candidate intervals it can resolve to, relative to the reference
/// the walker will be asked for.
#[derive(Clone, Debug, PartialEq)]
pub struct Constraint {
    pub forward: Vec<Interval>,
    pub backward: Vec<Interval>,
}

impl Constraint {
    /// Derive the walker over this constraint's candidates. Anchoring is the
    /// producer's concern: the candidates are already ordered relative to the
    /// reference, so the walker only hands them out; `reference` and
    /// `context` name the anchor the candidates were built against.
    pub fn to_walker<'a>(
        &'a self,
        _reference: &Interval,
        _context: &ResolverContext,
    ) -> (r: Walker<'a>)
        ensures
            r.forward.wf(),
            r.backward.wf(),
            r.forward.remaining() == self.forward@,
            r.backward.remaining() == self.backward@,
    {
        Walker {
            forward: CandidateSeq::new(&self.forward),
            backward: CandidateSeq::new(&self.backward),
        }
    }
}

} // verus!
