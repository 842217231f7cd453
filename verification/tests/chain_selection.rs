use babe_verify::babe::chain_selection::{
    select_best_block, BestBlockCandidate, ChainBlock, Preference,
};
use babe_verify::header::{PreDigest, PrimaryPreDigest, SecondaryPlainPreDigest};

fn candidate(slot_number: u64, primary_claims: u64) -> BestBlockCandidate {
    BestBlockCandidate { slot_number, primary_claims }
}

#[test]
fn higher_slot_number_wins() {
    assert_eq!(select_best_block(&candidate(11, 0), &candidate(10, 5)), Preference::First);
    assert_eq!(select_best_block(&candidate(10, 5), &candidate(11, 0)), Preference::Second);
}

#[test]
fn more_primary_claims_win_on_the_same_slot() {
    assert_eq!(select_best_block(&candidate(10, 3), &candidate(10, 2)), Preference::First);
    assert_eq!(select_best_block(&candidate(10, 2), &candidate(10, 3)), Preference::Second);
}

#[test]
fn a_draw_is_left_to_the_caller() {
    assert_eq!(select_best_block(&candidate(10, 2), &candidate(10, 2)), Preference::Undecided);
}

#[test]
fn primary_sibling_is_preferred_over_secondary_sibling() {
    let parent = PreDigest::SecondaryPlain(SecondaryPlainPreDigest { authority_index: 0, slot_number: 499 });
    let primary = PreDigest::Primary(PrimaryPreDigest {
        authority_index: 1,
        slot_number: 500,
        vrf_output: [0; 32],
        vrf_proof: [0; 64],
    });
    let secondary = PreDigest::SecondaryPlain(SecondaryPlainPreDigest { authority_index: 2, slot_number: 500 });
    let with_primary = vec![ChainBlock::from_claim(&parent), ChainBlock::from_claim(&primary)];
    let with_secondary = vec![ChainBlock::from_claim(&parent), ChainBlock::from_claim(&secondary)];
    let first = BestBlockCandidate::from_ancestry(&with_primary).unwrap();
    let second = BestBlockCandidate::from_ancestry(&with_secondary).unwrap();
    assert_eq!(first, candidate(500, 1));
    assert_eq!(second, candidate(500, 0));
    assert_eq!(select_best_block(&first, &second), Preference::First);
    assert_eq!(select_best_block(&second, &first), Preference::Second);
}

#[test]
fn primary_claims_are_counted_along_the_ancestry() {
    let blocks = vec![
        ChainBlock { slot_number: 3, primary: true },
        ChainBlock { slot_number: 4, primary: false },
        ChainBlock { slot_number: 6, primary: true },
        ChainBlock { slot_number: 7, primary: true },
        ChainBlock { slot_number: 9, primary: false },
    ];
    assert_eq!(BestBlockCandidate::from_ancestry(&blocks), Some(candidate(9, 3)));
    assert_eq!(BestBlockCandidate::from_ancestry(&blocks[..1]), Some(candidate(3, 1)));
}

#[test]
fn no_candidate_at_the_end_of_an_empty_chain() {
    assert_eq!(BestBlockCandidate::from_ancestry(&[]), None);
}

#[test]
fn selection_is_symmetric_and_transitive_on_a_grid() {
    let mut all = Vec::new();
    for slot_number in 0..4 {
        for primary_claims in 0..4 {
            all.push(candidate(slot_number, primary_claims));
        }
    }
    for a in &all {
        for b in &all {
            let forth = select_best_block(a, b);
            let back = select_best_block(b, a);
            assert_eq!(forth == Preference::First, back == Preference::Second);
            assert_eq!(forth == Preference::Undecided, a == b);
            for c in &all {
                if forth == Preference::First && select_best_block(b, c) == Preference::First {
                    assert_eq!(select_best_block(a, c), Preference::First);
                }
            }
        }
    }
}
