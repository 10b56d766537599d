//! The caching, backward-walking accessor over a global-state history:
//! wraps a cursor, validates monotonic consensus ordering as it walks, and
//! serves random-depth lookups with amortized re-walk cost.

use vstd::prelude::*;
use core::cmp::Ordering;
use crate::cursor::{DataState, GlobalStateIter};
use crate::order::{global_lt, GlobalOrd};

verus! {

/// Fatal, non-recoverable fault: the storage cursor violated the
/// consensus-ordering contract it must uphold. Callers must treat this as
/// aborting the whole validation pass; retrying cannot help, and catching
/// it to continue would let an invalid history pass as valid.
#[derive(Clone, Copy, PartialEq, Eq, Structural, Hash, Debug)]
pub enum ConsensusViolation {
    /// A record read during a validated walk did not order strictly
    /// before (older than) the previously validated record.
    UnorderedState,
}

/// The first `n` records of `s` carry strictly decreasing order values:
/// each record orders strictly before — is strictly older than — the one
/// read just before it.
pub open spec fn ords_decreasing_upto(s: Seq<(GlobalOrd, Seq<u8>)>, n: int) -> bool {
    forall|k: int| 1 <= k < n ==> #[trigger] global_lt(s[k].0, s[k - 1].0)
}

/// The accessor over one global-state type's history
/// ("CachedStateWindow"): owns the cursor plus the derived cache — how
/// many records from the newest have been validated so far, and the order
/// value of the deepest record validated.
pub struct GlobalContractState<I: GlobalStateIter> {
    checked_depth: u32,
    last_ord: GlobalOrd,
    iter: I,
}

impl<I: GlobalStateIter> GlobalContractState<I> {
    /// The full history this accessor walks, newest record first.
    pub closed spec fn records(&self) -> Seq<(GlobalOrd, Seq<u8>)> {
        self.iter.records()
    }

    /// How many records from the newest have been walked and validated.
    pub closed spec fn checked_depth(&self) -> int {
        self.checked_depth as int
    }

    /// The order value of the most recently validated record.
    pub closed spec fn last_seen_ord(&self) -> GlobalOrd {
        self.last_ord
    }

    /// Validity: the cursor is valid, at least the newest record counts as
    /// validated, the validated prefix lies within the history and carries
    /// strictly decreasing order values, and the cached order value is the
    /// deepest validated record's.
    pub closed spec fn wf(&self) -> bool {
        &&& self.iter.inv()
        &&& 1 <= self.checked_depth
        &&& self.records().len() > 0 ==> self.checked_depth as int <= self.records().len()
        &&& self.records().len() > 0 ==> self.last_ord == self.records()[
            self.checked_depth as int - 1].0
        &&& ords_decreasing_upto(self.records(), self.checked_depth as int)
    }

    /// Opens a validated accessor over the history supplied by a fresh
    /// cursor. Reads the newest record once to establish a baseline order
    /// value — on an empty history, the unanchored zero-index minimum —
    /// then repositions the cursor to the newest record.
    pub fn from(iter: I) -> (r: Self)
        requires
            iter.inv(),
            iter.pos() == -1,
        ensures
            r.wf(),
            r.records() == iter.records(),
            r.checked_depth() == 1,
            iter.records().len() > 0 ==> r.last_seen_ord() == iter.records()[0].0,
            iter.records().len() == 0 ==> r.last_seen_ord() == (GlobalOrd {
                witness_anchor: Option::None,
                idx: 0,
            }),
    {
        let mut iter = iter;
        let last_ord = match iter.prev() {
            Option::Some(rec) => rec.0,
            Option::None => GlobalOrd { witness_anchor: Option::None, idx: 0 },
        };
        iter.reset(0);
        GlobalContractState { iter, checked_depth: 1, last_ord }
    }

    /// Total number of records, as reported by the cursor.
    pub fn size(&self) -> (n: u32)
        requires
            self.wf(),
        ensures
            n as int == self.records().len(),
    {
        self.iter.size()
    }

    /// Retrieves the global state value located `depth` records back from
    /// the most recent one, while enforcing that the cursor surfaces
    /// records in strictly decreasing consensus order.
    ///
    /// A depth beyond the history yields absence, never a fault. A depth
    /// already validated is repositioned to directly. A depth beyond the
    /// validated frontier is reached by walking one record at a time,
    /// checking each freshly read order value against the last validated
    /// one; a record out of order is the fatal fault, reported instead of
    /// a value.
    pub fn nth(&mut self, depth: u32) -> (r: Result<Option<DataState>, ConsensusViolation>)
        requires
            old(self).wf(),
        ensures
            final(self).wf(),
            final(self).records() == old(self).records(),
            depth as int >= old(self).records().len() ==> (r matches Ok(v) && v is None
                && final(self).checked_depth() == old(self).checked_depth()),
            ((depth as int) < old(self).records().len() && ords_decreasing_upto(
                old(self).records(),
                vstd::math::max(old(self).checked_depth(), depth as int + 1),
            )) ==> (r matches Ok(v) && v matches Some(d) && d@ == old(self).records()[
                depth as int].1 && final(self).checked_depth() == vstd::math::max(
                old(self).checked_depth(),
                depth as int + 1,
            )),
            ((depth as int) < old(self).records().len() && !ords_decreasing_upto(
                old(self).records(),
                vstd::math::max(old(self).checked_depth(), depth as int + 1),
            )) ==> (r matches Err(e) && e == ConsensusViolation::UnorderedState
                && final(self).checked_depth() == old(self).checked_depth()),
    {
        let size = self.iter.size();
        if depth >= size {
            return Ok(Option::None);
        }
        if depth >= self.checked_depth {
            // Walk from the validated frontier to `depth`, checking each
            // newly read record against the deepest validated one.
            let mut j = self.checked_depth;
            let mut last = self.last_ord;
            self.iter.reset(j - 1);
            while j <= depth
                invariant
                    old(self).wf(),
                    self.checked_depth == old(self).checked_depth,
                    self.last_ord == old(self).last_ord,
                    self.iter.inv(),
                    self.iter.records() == old(self).records(),
                    self.iter.pos() == j as int - 1,
                    (depth as int) < old(self).records().len(),
                    old(self).records().len() <= 0xffff_ffff,
                    self.checked_depth <= j <= depth as int + 1,
                    last == old(self).records()[j as int - 1].0,
                    ords_decreasing_upto(old(self).records(), j as int),
                decreases depth as int + 1 - j as int,
            {
                match self.iter.prev() {
                    Option::Some(rec) => {
                        match rec.0.cmp(&last) {
                            Ordering::Less => {
                                last = rec.0;
                            }
                            _ => {
                                proof {
                                    assert(!global_lt(
                                        old(self).records()[j as int].0,
                                        old(self).records()[j as int - 1].0,
                                    ));
                                }
                                return Err(ConsensusViolation::UnorderedState);
                            }
                        }
                    }
                    Option::None => {
                        vstd::pervasive::unreached::<()>();
                    }
                }
                j = j + 1;
            }
            self.checked_depth = depth + 1;
            self.last_ord = last;
        } else {
            self.iter.reset(depth);
        }
        match self.iter.last() {
            Option::Some(rec) => Ok(Option::Some(rec.1)),
            Option::None => vstd::pervasive::unreached(),
        }
    }
}

} // verus!
