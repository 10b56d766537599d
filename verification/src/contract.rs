//! The read-only contract-state query surface the validation engine
//! consumes: global state by type, and per-outpoint owned-state
//! enumerations, together with an in-memory implementation.

use vstd::prelude::*;
use crate::cursor::{entries_view, DataState, GlobalStateIter, VecCursor};
use crate::order::GlobalOrd;
use crate::window::GlobalContractState;

verus! {

/// Semantic type of one global-state history within a contract.
#[derive(Clone, Copy, PartialEq, Eq, Structural, Hash, Debug)]
pub struct GlobalStateType {
    pub ty: u16,
}

/// Semantic type of an owned-state assignment.
#[derive(Clone, Copy, PartialEq, Eq, Structural, Hash, Debug)]
pub struct AssignmentType {
    pub ty: u16,
}

/// Identifier of the transaction output an owned-state assignment sits
/// on, reduced to the plain values the queries compare.
#[derive(Clone, Copy, PartialEq, Eq, Structural, Hash, Debug)]
pub struct XOutpoint {
    pub txid: u64,
    pub vout: u32,
}

/// A fungible owned-state value.
#[derive(Clone, Copy, PartialEq, Eq, Structural, Hash, Debug)]
pub struct FungibleState {
    pub value: u64,
}

/// An attachment owned-state reference: attachment identity and media
/// type, reduced to plain values.
#[derive(Clone, Copy, PartialEq, Eq, Structural, Hash, Debug)]
pub struct AttachState {
    pub id: u64,
    pub media_type: u16,
}

/// The value stored under the first entry of `s` whose key equals `key`,
/// or nothing when no entry matches.
pub open spec fn assoc_lookup<K, V>(s: Seq<(K, V)>, key: K) -> Option<V>
    decreases s.len(),
{
    if s.len() == 0 {
        Option::None
    } else if s[0].0 == key {
        Option::Some(s[0].1)
    } else {
        assoc_lookup(s.drop_first(), key)
    }
}

proof fn lemma_assoc_found<K, V>(s: Seq<(K, V)>, key: K, i: int)
    requires
        0 <= i < s.len(),
        s[i].0 == key,
        forall|k: int| 0 <= k < i ==> (#[trigger] s[k]).0 != key,
    ensures
        assoc_lookup(s, key) == Option::Some(s[i].1),
    decreases i,
{
    if i > 0 {
        lemma_assoc_found(s.drop_first(), key, i - 1);
    }
}

proof fn lemma_assoc_absent<K, V>(s: Seq<(K, V)>, key: K)
    requires
        forall|k: int| 0 <= k < s.len() ==> (#[trigger] s[k]).0 != key,
    ensures
        assoc_lookup(s, key) is None,
    decreases s.len(),
{
    if s.len() > 0 {
        lemma_assoc_absent(s.drop_first(), key);
    }
}

/// The read-only contract-state query surface ("ContractStateView"). An
/// outpoint/type combination with no assignments yields an empty or zero
/// result — absence is a valid contract state, never a fault.
pub trait ContractState: Sized {
    type Iter: GlobalStateIter;

    /// Implementation-specific validity, established at construction.
    spec fn inv(&self) -> bool;

    /// The global-state history recorded for the given type, newest
    /// record first.
    spec fn global_of(&self, ty: GlobalStateType) -> Seq<(GlobalOrd, Seq<u8>)>;

    /// The number of owned-right assignments at the given output.
    spec fn rights_of(&self, outpoint: XOutpoint, ty: AssignmentType) -> u32;

    /// The fungible values assigned at the given output.
    spec fn fungible_of(&self, outpoint: XOutpoint, ty: AssignmentType) -> Seq<FungibleState>;

    /// The structured-data assignments at the given output, as payload
    /// bytes.
    spec fn data_of(&self, outpoint: XOutpoint, ty: AssignmentType) -> Seq<Seq<u8>>;

    /// The attachment assignments at the given output.
    spec fn attach_of(&self, outpoint: XOutpoint, ty: AssignmentType) -> Seq<AttachState>;

    /// Opens a fresh validated accessor over the global-state history of
    /// the given type.
    fn global(&self, ty: GlobalStateType) -> (r: GlobalContractState<Self::Iter>)
        requires
            self.inv(),
        ensures
            r.wf(),
            r.records() == self.global_of(ty),
            r.checked_depth() == 1,
    ;

    /// Number of owned-right assignments of the given type held at the
    /// given output; zero when there are none.
    fn rights(&self, outpoint: XOutpoint, ty: AssignmentType) -> (n: u32)
        requires
            self.inv(),
        ensures
            n == self.rights_of(outpoint, ty),
    ;

    /// All fungible-state values assigned at the given output under the
    /// given type; empty when there are none.
    fn fungible(&self, outpoint: XOutpoint, ty: AssignmentType) -> (r: Vec<FungibleState>)
        requires
            self.inv(),
        ensures
            r@ == self.fungible_of(outpoint, ty),
    ;

    /// All structured-data assignments at the given output under the
    /// given type; empty when there are none.
    fn data(&self, outpoint: XOutpoint, ty: AssignmentType) -> (r: Vec<DataState>)
        requires
            self.inv(),
        ensures
            r@.len() == self.data_of(outpoint, ty).len(),
            forall|i: int| 0 <= i < r@.len() ==> (#[trigger] r@[i])@ == self.data_of(
                outpoint,
                ty,
            )[i],
    ;

    /// All attachment-state assignments at the given output under the
    /// given type; empty when there are none.
    fn attach(&self, outpoint: XOutpoint, ty: AssignmentType) -> (r: Vec<AttachState>)
        requires
            self.inv(),
        ensures
            r@ == self.attach_of(outpoint, ty),
    ;
}

/// A contract snapshot held in memory: association lists from state types
/// to global histories (newest record first) and from outpoint/type pairs
/// to owned-state assignments. The first matching entry of each list
/// decides a query; absent entries read as empty.
pub struct MemContractState {
    pub globals: Vec<(GlobalStateType, Vec<(GlobalOrd, DataState)>)>,
    pub rights: Vec<((XOutpoint, AssignmentType), u32)>,
    pub fungibles: Vec<((XOutpoint, AssignmentType), Vec<FungibleState>)>,
    pub data: Vec<((XOutpoint, AssignmentType), Vec<DataState>)>,
    pub attachments: Vec<((XOutpoint, AssignmentType), Vec<AttachState>)>,
}

fn copy_records(v: &Vec<(GlobalOrd, DataState)>) -> (r: Vec<(GlobalOrd, DataState)>)
    ensures
        r@.len() == v@.len(),
        forall|i: int| 0 <= i < v@.len() ==> (#[trigger] r@[i]).0 == v@[i].0 && r@[i].1@
            == v@[i].1@,
{
    let mut r: Vec<(GlobalOrd, DataState)> = Vec::new();
    let mut i: usize = 0;
    while i < v.len()
        invariant
            0 <= i <= v@.len(),
            r@.len() == i,
            forall|k: int| 0 <= k < i ==> (#[trigger] r@[k]).0 == v@[k].0 && r@[k].1@
                == v@[k].1@,
        decreases v@.len() - i,
    {
        let ord = v[i].0;
        let payload = v[i].1.clone();
        r.push((ord, payload));
        i = i + 1;
    }
    r
}

fn copy_data_states(v: &Vec<DataState>) -> (r: Vec<DataState>)
    ensures
        r@.len() == v@.len(),
        forall|i: int| 0 <= i < v@.len() ==> (#[trigger] r@[i])@ == v@[i]@,
{
    let mut r: Vec<DataState> = Vec::new();
    let mut i: usize = 0;
    while i < v.len()
        invariant
            0 <= i <= v@.len(),
            r@.len() == i,
            forall|k: int| 0 <= k < i ==> (#[trigger] r@[k])@ == v@[k]@,
        decreases v@.len() - i,
    {
        let payload = v[i].clone();
        r.push(payload);
        i = i + 1;
    }
    r
}

fn copy_fungibles(v: &Vec<FungibleState>) -> (r: Vec<FungibleState>)
    ensures
        r@ == v@,
{
    let mut r: Vec<FungibleState> = Vec::new();
    let mut i: usize = 0;
    while i < v.len()
        invariant
            0 <= i <= v@.len(),
            r@ == v@.subrange(0, i as int),
        decreases v@.len() - i,
    {
        let x = v[i];
        r.push(x);
        proof {
            assert(r@ =~= v@.subrange(0, i + 1));
        }
        i = i + 1;
    }
    proof {
        assert(r@ =~= v@);
    }
    r
}

fn copy_attachments(v: &Vec<AttachState>) -> (r: Vec<AttachState>)
    ensures
        r@ == v@,
{
    let mut r: Vec<AttachState> = Vec::new();
    let mut i: usize = 0;
    while i < v.len()
        invariant
            0 <= i <= v@.len(),
            r@ == v@.subrange(0, i as int),
        decreases v@.len() - i,
    {
        let x = v[i];
        r.push(x);
        proof {
            assert(r@ =~= v@.subrange(0, i + 1));
        }
        i = i + 1;
    }
    proof {
        assert(r@ =~= v@);
    }
    r
}

impl ContractState for MemContractState {
    type Iter = VecCursor;

    /// Every stored global history fits the cursor's count type.
    open spec fn inv(&self) -> bool {
        forall|k: int| 0 <= k < self.globals@.len() ==> (#[trigger] self.globals@[k]).1@.len()
            <= 0xffff_ffff
    }

    open spec fn global_of(&self, ty: GlobalStateType) -> Seq<(GlobalOrd, Seq<u8>)> {
        match assoc_lookup(self.globals@, ty) {
            Option::Some(entries) => entries_view(entries@),
            Option::None => Seq::empty(),
        }
    }

    open spec fn rights_of(&self, outpoint: XOutpoint, ty: AssignmentType) -> u32 {
        match assoc_lookup(self.rights@, (outpoint, ty)) {
            Option::Some(n) => n,
            Option::None => 0,
        }
    }

    open spec fn fungible_of(&self, outpoint: XOutpoint, ty: AssignmentType) -> Seq<
        FungibleState,
    > {
        match assoc_lookup(self.fungibles@, (outpoint, ty)) {
            Option::Some(v) => v@,
            Option::None => Seq::empty(),
        }
    }

    open spec fn data_of(&self, outpoint: XOutpoint, ty: AssignmentType) -> Seq<Seq<u8>> {
        match assoc_lookup(self.data@, (outpoint, ty)) {
            Option::Some(v) => v@.map_values(|d: DataState| d@),
            Option::None => Seq::empty(),
        }
    }

    open spec fn attach_of(&self, outpoint: XOutpoint, ty: AssignmentType) -> Seq<AttachState> {
        match assoc_lookup(self.attachments@, (outpoint, ty)) {
            Option::Some(v) => v@,
            Option::None => Seq::empty(),
        }
    }

    fn global(&self, ty: GlobalStateType) -> (r: GlobalContractState<VecCursor>) {
        let n = self.globals.len();
        let mut i: usize = 0;
        while i < n
            invariant
                n == self.globals@.len(),
                0 <= i <= n,
                self.inv(),
                forall|k: int| 0 <= k < i ==> (#[trigger] self.globals@[k]).0 != ty,
            decreases n - i,
        {
            if self.globals[i].0 == ty {
                let entries = copy_records(&self.globals[i].1);
                proof {
                    lemma_assoc_found(self.globals@, ty, i as int);
                    assert(entries_view(entries@) =~= entries_view(self.globals@[i as int].1@));
                }
                let cursor = VecCursor::new(entries);
                return GlobalContractState::from(cursor);
            }
            i = i + 1;
        }
        proof {
            lemma_assoc_absent(self.globals@, ty);
            assert(entries_view(Seq::<(GlobalOrd, DataState)>::empty()) =~= Seq::<(
                GlobalOrd,
                Seq<u8>,
            )>::empty());
        }
        let cursor = VecCursor::new(Vec::new());
        GlobalContractState::from(cursor)
    }

    fn rights(&self, outpoint: XOutpoint, ty: AssignmentType) -> (n: u32) {
        let len = self.rights.len();
        let mut i: usize = 0;
        while i < len
            invariant
                len == self.rights@.len(),
                0 <= i <= len,
                forall|k: int| 0 <= k < i ==> (#[trigger] self.rights@[k]).0 != (outpoint, ty),
            decreases len - i,
        {
            if self.rights[i].0.0 == outpoint && self.rights[i].0.1 == ty {
                proof {
                    lemma_assoc_found(self.rights@, (outpoint, ty), i as int);
                }
                return self.rights[i].1;
            }
            i = i + 1;
        }
        proof {
            lemma_assoc_absent(self.rights@, (outpoint, ty));
        }
        0
    }

    fn fungible(&self, outpoint: XOutpoint, ty: AssignmentType) -> (r: Vec<FungibleState>) {
        let len = self.fungibles.len();
        let mut i: usize = 0;
        while i < len
            invariant
                len == self.fungibles@.len(),
                0 <= i <= len,
                forall|k: int| 0 <= k < i ==> (#[trigger] self.fungibles@[k]).0 != (
                    outpoint,
                    ty,
                ),
            decreases len - i,
        {
            if self.fungibles[i].0.0 == outpoint && self.fungibles[i].0.1 == ty {
                proof {
                    lemma_assoc_found(self.fungibles@, (outpoint, ty), i as int);
                }
                return copy_fungibles(&self.fungibles[i].1);
            }
            i = i + 1;
        }
        proof {
            lemma_assoc_absent(self.fungibles@, (outpoint, ty));
        }
        Vec::new()
    }

    fn data(&self, outpoint: XOutpoint, ty: AssignmentType) -> (r: Vec<DataState>) {
        let len = self.data.len();
        let mut i: usize = 0;
        while i < len
            invariant
                len == self.data@.len(),
                0 <= i <= len,
                forall|k: int| 0 <= k < i ==> (#[trigger] self.data@[k]).0 != (outpoint, ty),
            decreases len - i,
        {
            if self.data[i].0.0 == outpoint && self.data[i].0.1 == ty {
                proof {
                    lemma_assoc_found(self.data@, (outpoint, ty), i as int);
                }
                return copy_data_states(&self.data[i].1);
            }
            i = i + 1;
        }
        proof {
            lemma_assoc_absent(self.data@, (outpoint, ty));
        }
        Vec::new()
    }

    fn attach(&self, outpoint: XOutpoint, ty: AssignmentType) -> (r: Vec<AttachState>) {
        let len = self.attachments.len();
        let mut i: usize = 0;
        while i < len
            invariant
                len == self.attachments@.len(),
                0 <= i <= len,
                forall|k: int| 0 <= k < i ==> (#[trigger] self.attachments@[k]).0 != (
                    outpoint,
                    ty,
                ),
            decreases len - i,
        {
            if self.attachments[i].0.0 == outpoint && self.attachments[i].0.1 == ty {
                proof {
                    lemma_assoc_found(self.attachments@, (outpoint, ty), i as int);
                }
                return copy_attachments(&self.attachments[i].1);
            }
            i = i + 1;
        }
        proof {
            lemma_assoc_absent(self.attachments@, (outpoint, ty));
        }
        Vec::new()
    }
}

} // verus!
