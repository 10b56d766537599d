//! Canonical total order over global-state update records.
//!
//! Every participant validating a contract must derive bit-identical
//! orderings from possibly different storage implementations, so the
//! comparisons here depend on nothing but the compared values themselves.

use vstd::prelude::*;
use core::cmp::Ordering;

verus! {

/// Identity of a witness transaction, reduced to the plain value the
/// consensus ordering rules compare. The identity system itself is an
/// external collaborator: the ordering only needs a stable, deterministic
/// tiebreak key.
#[derive(Clone, Copy, PartialEq, Eq, Structural, Hash, Debug)]
pub struct XWitnessId {
    pub id: u64,
}

/// Confirmation rank of a witness transaction, supplied by an external
/// resolver. Any off-chain (mempool) rank orders strictly below any
/// on-chain (confirmed) rank; confirmed witnesses order by chain position
/// (earlier is lesser), pending ones by relative priority.
#[derive(Clone, Copy, PartialEq, Eq, Structural, Hash, Debug)]
pub enum WitnessOrd {
    OffChain { priority: u32 },
    OnChain { height: u32 },
}

/// Whether an owned-state assignment has been finalized against a witness
/// transaction yet.
#[derive(Clone, Copy, PartialEq, Eq, Structural, Hash, Debug)]
pub enum AssignmentWitness {
    Absent,
    Present(XWitnessId),
}

/// Txid and confirmation-rank information, ordered according to the
/// consensus rules: primarily by rank, ties broken by witness identity.
#[derive(Clone, Copy, PartialEq, Eq, Structural, Hash, Debug)]
pub struct WitnessAnchor {
    pub witness_ord: WitnessOrd,
    pub witness_id: XWitnessId,
}

/// Consensus position of one global-state update record: an optional
/// anchor (genesis records have none) and the record's index within its
/// witness's batch of updates.
#[derive(Clone, Copy, PartialEq, Eq, Structural, Hash, Debug)]
pub struct GlobalOrd {
    pub witness_anchor: Option<WitnessAnchor>,
    pub idx: u16,
}

/// `a` ranks strictly below `b` under the witness-rank rules.
pub open spec fn witness_ord_lt(a: WitnessOrd, b: WitnessOrd) -> bool {
    match (a, b) {
        (WitnessOrd::OffChain { priority: p1 }, WitnessOrd::OffChain { priority: p2 }) => p1 < p2,
        (WitnessOrd::OffChain { .. }, WitnessOrd::OnChain { .. }) => true,
        (WitnessOrd::OnChain { .. }, WitnessOrd::OffChain { .. }) => false,
        (WitnessOrd::OnChain { height: h1 }, WitnessOrd::OnChain { height: h2 }) => h1 < h2,
    }
}

/// `a` orders strictly before `b`: primary key is the witness rank, ties
/// are broken by the witness identity.
pub open spec fn anchor_lt(a: WitnessAnchor, b: WitnessAnchor) -> bool {
    ||| witness_ord_lt(a.witness_ord, b.witness_ord)
    ||| (a.witness_ord == b.witness_ord && a.witness_id.id < b.witness_id.id)
}

/// `a` orders strictly before `b` in canonical history order: unanchored
/// (genesis) records come first, ordered by index; anchored records follow,
/// ordered by anchor and then by index within the same anchor.
pub open spec fn global_lt(a: GlobalOrd, b: GlobalOrd) -> bool {
    match (a.witness_anchor, b.witness_anchor) {
        (Option::None, Option::None) => a.idx < b.idx,
        (Option::None, Option::Some(_)) => true,
        (Option::Some(_), Option::None) => false,
        (Option::Some(x), Option::Some(y)) => anchor_lt(x, y) || (x == y && a.idx < b.idx),
    }
}

/// The record an unanchored factory call produces.
pub open spec fn genesis_ord(idx: u16) -> GlobalOrd {
    GlobalOrd { witness_anchor: Option::None, idx }
}

/// The record an anchored factory call produces.
pub open spec fn anchored_ord(anchor: WitnessAnchor, idx: u16) -> GlobalOrd {
    GlobalOrd { witness_anchor: Option::Some(anchor), idx }
}

fn cmp_u16(a: u16, b: u16) -> (r: Ordering)
    ensures
        (r == Ordering::Less) <==> a < b,
        (r == Ordering::Equal) <==> a == b,
        (r == Ordering::Greater) <==> a > b,
{
    if a < b {
        Ordering::Less
    } else if a == b {
        Ordering::Equal
    } else {
        Ordering::Greater
    }
}

fn cmp_u32(a: u32, b: u32) -> (r: Ordering)
    ensures
        (r == Ordering::Less) <==> a < b,
        (r == Ordering::Equal) <==> a == b,
        (r == Ordering::Greater) <==> a > b,
{
    if a < b {
        Ordering::Less
    } else if a == b {
        Ordering::Equal
    } else {
        Ordering::Greater
    }
}

fn cmp_u64(a: u64, b: u64) -> (r: Ordering)
    ensures
        (r == Ordering::Less) <==> a < b,
        (r == Ordering::Equal) <==> a == b,
        (r == Ordering::Greater) <==> a > b,
{
    if a < b {
        Ordering::Less
    } else if a == b {
        Ordering::Equal
    } else {
        Ordering::Greater
    }
}

impl WitnessOrd {
    /// Total comparison of witness ranks: mempool before chain, then by
    /// priority or chain position respectively.
    pub fn cmp(&self, other: &Self) -> (r: Ordering)
        ensures
            (r == Ordering::Less) <==> witness_ord_lt(*self, *other),
            (r == Ordering::Equal) <==> *self == *other,
            (r == Ordering::Greater) <==> witness_ord_lt(*other, *self),
    {
        match (self, other) {
            (WitnessOrd::OffChain { priority: p1 }, WitnessOrd::OffChain { priority: p2 }) => {
                cmp_u32(*p1, *p2)
            }
            (WitnessOrd::OffChain { .. }, WitnessOrd::OnChain { .. }) => Ordering::Less,
            (WitnessOrd::OnChain { .. }, WitnessOrd::OffChain { .. }) => Ordering::Greater,
            (WitnessOrd::OnChain { height: h1 }, WitnessOrd::OnChain { height: h2 }) => {
                cmp_u32(*h1, *h2)
            }
        }
    }
}

impl WitnessAnchor {
    /// Total comparison of anchors: by witness rank, ties broken by
    /// witness identity.
    pub fn cmp(&self, other: &Self) -> (r: Ordering)
        ensures
            (r == Ordering::Less) <==> anchor_lt(*self, *other),
            (r == Ordering::Equal) <==> *self == *other,
            (r == Ordering::Greater) <==> anchor_lt(*other, *self),
    {
        let by_ord = self.witness_ord.cmp(&other.witness_ord);
        match by_ord {
            Ordering::Equal => cmp_u64(self.witness_id.id, other.witness_id.id),
            _ => by_ord,
        }
    }

    /// Anchor for a witness still pending in the mempool, ranked by the
    /// given relative priority.
    pub fn from_mempool(witness_id: XWitnessId, priority: u32) -> (r: Self)
        ensures
            r == (WitnessAnchor { witness_ord: WitnessOrd::OffChain { priority }, witness_id }),
    {
        WitnessAnchor { witness_ord: WitnessOrd::OffChain { priority }, witness_id }
    }
}

impl GlobalOrd {
    /// Total comparison defining canonical history order.
    pub fn cmp(&self, other: &Self) -> (r: Ordering)
        ensures
            (r == Ordering::Less) <==> global_lt(*self, *other),
            (r == Ordering::Equal) <==> *self == *other,
            (r == Ordering::Greater) <==> global_lt(*other, *self),
    {
        match (&self.witness_anchor, &other.witness_anchor) {
            (Option::None, Option::None) => cmp_u16(self.idx, other.idx),
            (Option::None, Option::Some(_)) => Ordering::Less,
            (Option::Some(_), Option::None) => Ordering::Greater,
            (Option::Some(a), Option::Some(b)) => {
                let by_anchor = a.cmp(b);
                match by_anchor {
                    Ordering::Equal => cmp_u16(self.idx, other.idx),
                    _ => by_anchor,
                }
            }
        }
    }

    /// Record position anchored to a witness transaction, at the given
    /// index within that witness's batch of updates.
    pub fn with_anchor(ord_txid: WitnessAnchor, idx: u16) -> (r: Self)
        ensures
            r == anchored_ord(ord_txid, idx),
    {
        GlobalOrd { witness_anchor: Option::Some(ord_txid), idx }
    }

    /// Record position of an unanchored (genesis) update.
    pub fn genesis(idx: u16) -> (r: Self)
        ensures
            r == genesis_ord(idx),
    {
        GlobalOrd { witness_anchor: Option::None, idx }
    }
}

impl PartialOrd for WitnessAnchor {
    fn partial_cmp(&self, other: &Self) -> (r: Option<Ordering>) {
        Option::Some(self.cmp(other))
    }
}

impl vstd::std_specs::cmp::PartialOrdSpecImpl for WitnessAnchor {
    open spec fn obeys_partial_cmp_spec() -> bool {
        true
    }

    open spec fn partial_cmp_spec(&self, other: &Self) -> Option<Ordering> {
        if anchor_lt(*self, *other) {
            Option::Some(Ordering::Less)
        } else if *self == *other {
            Option::Some(Ordering::Equal)
        } else {
            Option::Some(Ordering::Greater)
        }
    }
}

impl PartialOrd for GlobalOrd {
    fn partial_cmp(&self, other: &Self) -> (r: Option<Ordering>) {
        Option::Some(self.cmp(other))
    }
}

impl vstd::std_specs::cmp::PartialOrdSpecImpl for GlobalOrd {
    open spec fn obeys_partial_cmp_spec() -> bool {
        true
    }

    open spec fn partial_cmp_spec(&self, other: &Self) -> Option<Ordering> {
        if global_lt(*self, *other) {
            Option::Some(Ordering::Less)
        } else if *self == *other {
            Option::Some(Ordering::Equal)
        } else {
            Option::Some(Ordering::Greater)
        }
    }
}

impl From<XWitnessId> for AssignmentWitness {
    /// A present witness identity wraps into a present assignment
    /// witness, one-to-one.
    fn from(value: XWitnessId) -> (r: Self) {
        AssignmentWitness::Present(value)
    }
}

impl vstd::std_specs::convert::FromSpecImpl<XWitnessId> for AssignmentWitness {
    open spec fn obeys_from_spec() -> bool {
        true
    }

    open spec fn from_spec(value: XWitnessId) -> Self {
        AssignmentWitness::Present(value)
    }
}

impl From<Option<XWitnessId>> for AssignmentWitness {
    /// An absent witness identity maps to an absent assignment witness,
    /// one-to-one.
    fn from(value: Option<XWitnessId>) -> (r: Self) {
        match value {
            Option::None => AssignmentWitness::Absent,
            Option::Some(id) => AssignmentWitness::Present(id),
        }
    }
}

impl vstd::std_specs::convert::FromSpecImpl<Option<XWitnessId>> for AssignmentWitness {
    open spec fn obeys_from_spec() -> bool {
        true
    }

    open spec fn from_spec(value: Option<XWitnessId>) -> Self {
        match value {
            Option::None => AssignmentWitness::Absent,
            Option::Some(id) => AssignmentWitness::Present(id),
        }
    }
}

/// Law: the canonical order is total and consistent with equality — of
/// `a` before `b`, `a` equal to `b`, and `b` before `a`, exactly one holds.
pub proof fn lemma_global_ord_total(a: GlobalOrd, b: GlobalOrd)
    ensures
        global_lt(a, b) || a == b || global_lt(b, a),
        global_lt(a, b) ==> !(a == b) && !global_lt(b, a),
        a == b ==> !global_lt(a, b),
{
}

/// Law: the canonical order is transitive.
pub proof fn lemma_global_ord_transitive(a: GlobalOrd, b: GlobalOrd, c: GlobalOrd)
    requires
        global_lt(a, b),
        global_lt(b, c),
    ensures
        global_lt(a, c),
{
}

/// Law: genesis precedence — an unanchored record orders strictly before
/// every anchored record, whatever the two indices are.
pub proof fn lemma_genesis_precedence(anchor: WitnessAnchor, i: u16, j: u16)
    ensures
        global_lt(genesis_ord(i), anchored_ord(anchor, j)),
{
}

/// Law: same-anchor tie-break — two records sharing an anchor order by
/// their index within that witness's batch.
pub proof fn lemma_same_anchor_tie_break(anchor: WitnessAnchor, i: u16, j: u16)
    requires
        i < j,
    ensures
        global_lt(anchored_ord(anchor, i), anchored_ord(anchor, j)),
{
}

/// Law: anchor dominance — if one anchor orders before another (by rank,
/// or by the witness-id tiebreak on equal ranks), every record of the
/// first orders before every record of the second, whatever the indices.
pub proof fn lemma_anchor_dominance(a1: WitnessAnchor, a2: WitnessAnchor, i: u16, j: u16)
    requires
        anchor_lt(a1, a2),
    ensures
        global_lt(anchored_ord(a1, i), anchored_ord(a2, j)),
{
}

} // verus!
