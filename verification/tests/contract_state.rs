use rgb_state::contract::{
    AssignmentType, AttachState, ContractState, FungibleState, GlobalStateType,
    MemContractState, XOutpoint,
};
use rgb_state::cursor::DataState;
use rgb_state::order::{GlobalOrd, WitnessAnchor, WitnessOrd, XWitnessId};

fn onchain(height: u32, id: u64) -> WitnessAnchor {
    WitnessAnchor {
        witness_ord: WitnessOrd::OnChain { height },
        witness_id: XWitnessId { id },
    }
}

fn record(ord: GlobalOrd, byte: u8) -> (GlobalOrd, DataState) {
    (ord, DataState { value: vec![byte] })
}

fn outpoint(txid: u64, vout: u32) -> XOutpoint {
    XOutpoint { txid, vout }
}

fn sample_state() -> MemContractState {
    let a = onchain(100, 1);
    let b = onchain(200, 2);
    let ty = GlobalStateType { ty: 1 };
    let history = vec![
        record(GlobalOrd::with_anchor(b, 0), 3),
        record(GlobalOrd::with_anchor(a, 1), 2),
        record(GlobalOrd::with_anchor(a, 0), 1),
        record(GlobalOrd::genesis(0), 0),
    ];
    let owner = (outpoint(10, 0), AssignmentType { ty: 2 });
    MemContractState {
        globals: vec![(ty, history)],
        rights: vec![(owner, 3)],
        fungibles: vec![(owner, vec![FungibleState { value: 100 }, FungibleState { value: 42 }])],
        data: vec![(owner, vec![DataState { value: vec![1, 2] }])],
        attachments: vec![(owner, vec![AttachState { id: 9, media_type: 4 }])],
    }
}

#[test]
fn example_history_serves_canonical_depths() {
    // anchors A (on-chain at 100) and B (on-chain at 200); records
    // genesis(0), A/0, A/1, B/0; canonical order newest to oldest is
    // B/0, A/1, A/0, genesis(0)
    let state = sample_state();
    let mut win = state.global(GlobalStateType { ty: 1 });
    assert_eq!(win.size(), 4);
    let newest = win.nth(0).unwrap().unwrap();
    assert_eq!(newest.value, vec![3]);
    let oldest = win.nth(3).unwrap().unwrap();
    assert_eq!(oldest.value, vec![0]);
    assert!(win.nth(4).unwrap().is_none());
}

#[test]
fn unknown_global_type_reads_as_empty_history() {
    let state = sample_state();
    let mut win = state.global(GlobalStateType { ty: 99 });
    assert_eq!(win.size(), 0);
    assert!(win.nth(0).unwrap().is_none());
}

#[test]
fn owned_state_queries_return_assignments() {
    let state = sample_state();
    let owner = outpoint(10, 0);
    let ty = AssignmentType { ty: 2 };
    assert_eq!(state.rights(owner, ty), 3);
    assert_eq!(
        state.fungible(owner, ty),
        vec![FungibleState { value: 100 }, FungibleState { value: 42 }]
    );
    let data = state.data(owner, ty);
    assert_eq!(data.len(), 1);
    assert_eq!(data[0].value, vec![1, 2]);
    assert_eq!(state.attach(owner, ty), vec![AttachState { id: 9, media_type: 4 }]);
}

#[test]
fn absence_is_a_valid_state_not_an_error() {
    let state = sample_state();
    let unknown = outpoint(11, 1);
    let ty = AssignmentType { ty: 2 };
    assert_eq!(state.rights(unknown, ty), 0);
    assert!(state.fungible(unknown, ty).is_empty());
    assert!(state.data(unknown, ty).is_empty());
    assert!(state.attach(unknown, ty).is_empty());
    // same outpoint, different assignment type
    let other_ty = AssignmentType { ty: 3 };
    assert_eq!(state.rights(outpoint(10, 0), other_ty), 0);
}
