use std::cmp::Ordering;

use rgb_state::order::{AssignmentWitness, GlobalOrd, WitnessAnchor, WitnessOrd, XWitnessId};

fn wid(id: u64) -> XWitnessId {
    XWitnessId { id }
}

fn onchain(height: u32, id: u64) -> WitnessAnchor {
    WitnessAnchor { witness_ord: WitnessOrd::OnChain { height }, witness_id: wid(id) }
}

fn offchain(priority: u32, id: u64) -> WitnessAnchor {
    WitnessAnchor { witness_ord: WitnessOrd::OffChain { priority }, witness_id: wid(id) }
}

#[test]
fn totality_exactly_one_relation_holds() {
    let samples = [
        GlobalOrd::genesis(0),
        GlobalOrd::genesis(1),
        GlobalOrd::genesis(65535),
        GlobalOrd::with_anchor(offchain(0, 9), 0),
        GlobalOrd::with_anchor(offchain(7, 1), 3),
        GlobalOrd::with_anchor(offchain(7, 2), 3),
        GlobalOrd::with_anchor(onchain(100, 1), 0),
        GlobalOrd::with_anchor(onchain(100, 1), 1),
        GlobalOrd::with_anchor(onchain(100, 2), 0),
        GlobalOrd::with_anchor(onchain(200, 1), 0),
    ];
    for a in samples.iter() {
        for b in samples.iter() {
            let lt = a.cmp(b) == Ordering::Less;
            let eq = a.cmp(b) == Ordering::Equal;
            let gt = a.cmp(b) == Ordering::Greater;
            assert_eq!(
                [lt, eq, gt].iter().filter(|x| **x).count(),
                1,
                "exactly one relation must hold"
            );
            assert_eq!(eq, a == b, "comparison must agree with equality");
            assert_eq!(gt, b.cmp(a) == Ordering::Less, "comparison must be antisymmetric");
        }
    }
}

#[test]
fn transitivity_over_sample_triples() {
    let samples = [
        GlobalOrd::genesis(0),
        GlobalOrd::genesis(2),
        GlobalOrd::with_anchor(offchain(5, 3), 1),
        GlobalOrd::with_anchor(onchain(100, 1), 0),
        GlobalOrd::with_anchor(onchain(100, 1), 4),
        GlobalOrd::with_anchor(onchain(150, 8), 0),
        GlobalOrd::with_anchor(onchain(200, 2), 2),
    ];
    for a in samples.iter() {
        for b in samples.iter() {
            for c in samples.iter() {
                if a.cmp(b) == Ordering::Less && b.cmp(c) == Ordering::Less {
                    assert_eq!(a.cmp(c), Ordering::Less, "order must be transitive");
                }
            }
        }
    }
}

#[test]
fn genesis_precedes_every_anchored_record() {
    let anchors = [offchain(0, 0), offchain(9, 1), onchain(0, 0), onchain(500, 7)];
    let indices = [0u16, 1, 777, 65535];
    for anchor in anchors.iter() {
        for i in indices.iter() {
            for j in indices.iter() {
                let genesis = GlobalOrd::genesis(*i);
                let anchored = GlobalOrd::with_anchor(*anchor, *j);
                assert_eq!(genesis.cmp(&anchored), Ordering::Less);
                assert_eq!(anchored.cmp(&genesis), Ordering::Greater);
            }
        }
    }
}

#[test]
fn same_anchor_orders_by_index() {
    let anchor = onchain(42, 11);
    assert_eq!(
        GlobalOrd::with_anchor(anchor, 0).cmp(&GlobalOrd::with_anchor(anchor, 1)),
        Ordering::Less
    );
    assert_eq!(
        GlobalOrd::with_anchor(anchor, 7).cmp(&GlobalOrd::with_anchor(anchor, 65535)),
        Ordering::Less
    );
    assert_eq!(
        GlobalOrd::with_anchor(anchor, 3).cmp(&GlobalOrd::with_anchor(anchor, 3)),
        Ordering::Equal
    );
}

#[test]
fn lesser_anchor_dominates_any_indices() {
    // by rank: lower height first, and off-chain before on-chain
    let pairs = [
        (onchain(100, 9), onchain(200, 1)),
        (offchain(3, 9), offchain(4, 1)),
        (offchain(4000, 9), onchain(0, 1)),
        // rank tie: witness id breaks it
        (onchain(100, 1), onchain(100, 2)),
        (offchain(5, 3), offchain(5, 30)),
    ];
    for (a1, a2) in pairs.iter() {
        assert_eq!(a1.cmp(a2), Ordering::Less);
        for i in [0u16, 40, 65535].iter() {
            for j in [0u16, 40, 65535].iter() {
                assert_eq!(
                    GlobalOrd::with_anchor(*a1, *i).cmp(&GlobalOrd::with_anchor(*a2, *j)),
                    Ordering::Less
                );
            }
        }
    }
}

#[test]
fn genesis_records_order_by_index() {
    assert_eq!(GlobalOrd::genesis(0).cmp(&GlobalOrd::genesis(1)), Ordering::Less);
    assert_eq!(GlobalOrd::genesis(5).cmp(&GlobalOrd::genesis(5)), Ordering::Equal);
    assert_eq!(GlobalOrd::genesis(9).cmp(&GlobalOrd::genesis(2)), Ordering::Greater);
}

#[test]
fn mempool_anchor_carries_offchain_rank() {
    let anchor = WitnessAnchor::from_mempool(wid(77), 12);
    assert_eq!(anchor.witness_id, wid(77));
    assert_eq!(anchor.witness_ord, WitnessOrd::OffChain { priority: 12 });
    // a pending witness ranks below any confirmed one
    assert_eq!(anchor.cmp(&onchain(0, 77)), Ordering::Less);
}

#[test]
fn assignment_witness_from_optional_identity() {
    assert_eq!(AssignmentWitness::from(None), AssignmentWitness::Absent);
    assert_eq!(AssignmentWitness::from(Some(wid(5))), AssignmentWitness::Present(wid(5)));
    assert_eq!(AssignmentWitness::from(wid(5)), AssignmentWitness::Present(wid(5)));
}

#[test]
fn comparison_operators_agree_with_cmp() {
    let anchor = onchain(100, 1);
    assert!(GlobalOrd::genesis(1) < GlobalOrd::with_anchor(anchor, 0));
    assert!(GlobalOrd::with_anchor(anchor, 2) > GlobalOrd::with_anchor(anchor, 1));
    assert!(offchain(7, 1) < onchain(0, 0));
    assert_eq!(
        GlobalOrd::genesis(4).partial_cmp(&GlobalOrd::genesis(4)),
        Some(Ordering::Equal)
    );
}
