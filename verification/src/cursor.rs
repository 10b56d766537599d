//! The traversal contract a storage adapter implements to supply one
//! global-state type's update history, and an in-memory adapter over a
//! vector of records.

use vstd::prelude::*;
use crate::order::GlobalOrd;

verus! {

/// One structured global-state value, carried as opaque bytes: the
/// ordering core hands payloads through without interpreting them.
#[derive(Debug)]
pub struct DataState {
    pub value: Vec<u8>,
}

impl View for DataState {
    type V = Seq<u8>;

    open spec fn view(&self) -> Seq<u8> {
        self.value@
    }
}

impl Clone for DataState {
    fn clone(&self) -> (r: Self)
        ensures
            r@ == self@,
    {
        let value = self.value.clone();
        proof {
            assert forall|i: int| 0 <= i < self.value@.len() implies value@[i]
                == self.value@[i] by {
                assert(vstd::pervasive::cloned::<u8>(self.value[i], value[i]));
            }
            assert(self.value@ =~= value@);
        }
        DataState { value }
    }
}

/// The contract a storage adapter implements to surface one global-state
/// type's full update history, newest record first ("StateCursor").
///
/// `records()` is the whole history as the adapter surfaces it: the record
/// at index `d` lies `d` steps back from the most recent update. `pos()`
/// is the current cursor position — the index `last` reads — with `-1`
/// for a freshly created cursor that has read nothing yet. Nothing here
/// demands that `records()` respect consensus ordering: whether it does is
/// exactly what the consuming accessor validates as it walks.
pub trait GlobalStateIter: Sized {
    spec fn records(&self) -> Seq<(GlobalOrd, Seq<u8>)>;

    spec fn pos(&self) -> int;

    /// Adapter-specific validity, preserved by every operation.
    spec fn inv(&self) -> bool;

    /// Total number of records of the iterated history; stable across
    /// calls, since the history does not change mid-query.
    fn size(&self) -> (n: u32)
        requires
            self.inv(),
        ensures
            n as int == self.records().len(),
    ;

    /// Steps to the next-older record and returns it; nothing once the
    /// oldest record has been passed.
    fn prev(&mut self) -> (r: Option<(GlobalOrd, DataState)>)
        requires
            old(self).inv(),
        ensures
            final(self).inv(),
            final(self).records() == old(self).records(),
            ({
                let p = old(self).pos() + 1;
                if 0 <= p < old(self).records().len() {
                    &&& final(self).pos() == p
                    &&& r matches Some(rec) && rec.0 == old(self).records()[p].0 && rec.1@
                        == old(self).records()[p].1
                } else {
                    &&& final(self).pos() == old(self).pos()
                    &&& r is None
                }
            }),
    ;

    /// Returns the record at the current cursor position without
    /// advancing; nothing if the cursor is not positioned on a record.
    fn last(&mut self) -> (r: Option<(GlobalOrd, DataState)>)
        requires
            old(self).inv(),
        ensures
            final(self).inv(),
            final(self).records() == old(self).records(),
            final(self).pos() == old(self).pos(),
            ({
                let p = old(self).pos();
                if 0 <= p < old(self).records().len() {
                    r matches Some(rec) && rec.0 == old(self).records()[p].0 && rec.1@
                        == old(self).records()[p].1
                } else {
                    r is None
                }
            }),
    ;

    /// Repositions the cursor so that the next `last` call yields the
    /// record `depth` steps back from the newest one.
    fn reset(&mut self, depth: u32)
        requires
            old(self).inv(),
        ensures
            final(self).inv(),
            final(self).records() == old(self).records(),
            final(self).pos() == depth as int,
    ;
}

/// The history view an in-memory record vector surfaces: each record's
/// order value paired with its payload bytes.
pub open spec fn entries_view(entries: Seq<(GlobalOrd, DataState)>) -> Seq<(GlobalOrd, Seq<u8>)> {
    entries.map_values(|e: (GlobalOrd, DataState)| (e.0, e.1@))
}

/// A cursor over an in-memory history held as a vector of records, newest
/// first. The vector is surfaced exactly as given — whether it actually
/// respects consensus ordering is for the consuming accessor to check.
pub struct VecCursor {
    entries: Vec<(GlobalOrd, DataState)>,
    /// Index of the record the next `prev` call yields; the cursor stands
    /// on the record just before it.
    next: u64,
}

impl VecCursor {
    /// A fresh cursor over the given newest-first records.
    pub fn new(entries: Vec<(GlobalOrd, DataState)>) -> (r: Self)
        requires
            entries@.len() <= 0xffff_ffff,
        ensures
            r.inv(),
            r.pos() == -1,
            r.records() == entries_view(entries@),
    {
        VecCursor { entries, next: 0 }
    }
}

impl GlobalStateIter for VecCursor {
    closed spec fn records(&self) -> Seq<(GlobalOrd, Seq<u8>)> {
        entries_view(self.entries@)
    }

    closed spec fn pos(&self) -> int {
        self.next as int - 1
    }

    closed spec fn inv(&self) -> bool {
        self.entries@.len() <= 0xffff_ffff
    }

    fn size(&self) -> (n: u32) {
        self.entries.len() as u32
    }

    fn prev(&mut self) -> (r: Option<(GlobalOrd, DataState)>) {
        if self.next < self.entries.len() as u64 {
            let i = self.next as usize;
            let ord = self.entries[i].0;
            let data = self.entries[i].1.clone();
            self.next = self.next + 1;
            Some((ord, data))
        } else {
            None
        }
    }

    fn last(&mut self) -> (r: Option<(GlobalOrd, DataState)>) {
        if 1 <= self.next && self.next <= self.entries.len() as u64 {
            let i = (self.next - 1) as usize;
            let ord = self.entries[i].0;
            let data = self.entries[i].1.clone();
            Some((ord, data))
        } else {
            None
        }
    }

    fn reset(&mut self, depth: u32) {
        self.next = depth as u64 + 1;
    }
}

} // verus!
