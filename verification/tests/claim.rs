use babe_verify::babe::claim::{claim_request, sum_weights, validate_slot_claim, ClaimRequest};
use babe_verify::babe::header_info::header_information;
use babe_verify::babe::{ClaimError, ClaimEvidence, EpochInformation, EpochInformationAuthority};
use babe_verify::header::{
    DigestItem, HeaderRef, PreDigest, PrimaryPreDigest, SecondaryPlainPreDigest,
    SecondaryVRFPreDigest,
};

fn epoch(weights: &[u64]) -> EpochInformation {
    let mut authorities = Vec::new();
    for (index, weight) in weights.iter().enumerate() {
        authorities.push(EpochInformationAuthority { public_key: [index as u8; 32], weight: *weight });
    }
    EpochInformation { authorities, randomness: [0xaa; 32] }
}

fn primary(authority_index: u32) -> PreDigest {
    PreDigest::Primary(PrimaryPreDigest {
        authority_index,
        slot_number: 1000,
        vrf_output: [1; 32],
        vrf_proof: [2; 64],
    })
}

fn secondary_plain(authority_index: u32) -> PreDigest {
    PreDigest::SecondaryPlain(SecondaryPlainPreDigest { authority_index, slot_number: 1000 })
}

fn secondary_vrf(authority_index: u32) -> PreDigest {
    PreDigest::SecondaryVRF(SecondaryVRFPreDigest {
        authority_index,
        slot_number: 1000,
        vrf_output: [3; 32],
        vrf_proof: [4; 64],
    })
}

/// Evidence under which the claim of authority 1 is valid, whatever its kind.
fn good() -> ClaimEvidence {
    ClaimEvidence {
        vrf_proof_valid: true,
        vrf_value: 99,
        primary_threshold: 100,
        secondary_author: 1,
        seal_valid: true,
    }
}

#[test]
fn valid_claims_of_every_kind() {
    let info = epoch(&[1, 1, 1]);
    assert_eq!(validate_slot_claim(&info, &primary(1), &good()), Ok(()));
    assert_eq!(validate_slot_claim(&info, &secondary_plain(1), &good()), Ok(()));
    assert_eq!(validate_slot_claim(&info, &secondary_vrf(1), &good()), Ok(()));
}

#[test]
fn authority_index_must_be_in_range() {
    let info = epoch(&[1, 1, 1]);
    assert_eq!(validate_slot_claim(&info, &primary(2), &good()), Ok(()));
    assert_eq!(
        validate_slot_claim(&info, &primary(3), &good()),
        Err(ClaimError::AuthorityIndexOutOfRange)
    );
    assert_eq!(
        validate_slot_claim(&epoch(&[]), &secondary_plain(0), &good()),
        Err(ClaimError::AuthorityIndexOutOfRange)
    );
    assert_eq!(
        validate_slot_claim(&info, &secondary_vrf(u32::MAX), &good()),
        Err(ClaimError::AuthorityIndexOutOfRange)
    );
}

#[test]
fn primary_claim_needs_its_vrf_proof() {
    let evidence = ClaimEvidence { vrf_proof_valid: false, ..good() };
    assert_eq!(
        validate_slot_claim(&epoch(&[1, 1]), &primary(1), &evidence),
        Err(ClaimError::BadVrfProof)
    );
}

#[test]
fn primary_claim_must_be_below_the_threshold() {
    let info = epoch(&[1, 1]);
    let at = ClaimEvidence { vrf_value: 100, ..good() };
    let above = ClaimEvidence { vrf_value: u128::MAX, ..good() };
    let none = ClaimEvidence { vrf_value: 0, primary_threshold: 0, ..good() };
    assert_eq!(validate_slot_claim(&info, &primary(1), &at), Err(ClaimError::ThresholdExceeded));
    assert_eq!(validate_slot_claim(&info, &primary(1), &above), Err(ClaimError::ThresholdExceeded));
    assert_eq!(validate_slot_claim(&info, &primary(1), &none), Err(ClaimError::ThresholdExceeded));
}

#[test]
fn primary_claim_does_not_depend_on_the_slot_assignment() {
    let evidence = ClaimEvidence { secondary_author: 0, ..good() };
    assert_eq!(validate_slot_claim(&epoch(&[1, 1]), &primary(1), &evidence), Ok(()));
}

#[test]
fn secondary_claim_must_come_from_the_assigned_authority() {
    let info = epoch(&[1, 1]);
    let evidence = ClaimEvidence { secondary_author: 0, ..good() };
    assert_eq!(
        validate_slot_claim(&info, &secondary_plain(1), &evidence),
        Err(ClaimError::WrongSecondaryAuthor)
    );
    assert_eq!(
        validate_slot_claim(&info, &secondary_vrf(1), &evidence),
        Err(ClaimError::WrongSecondaryAuthor)
    );
}

#[test]
fn secondary_claim_does_not_depend_on_the_threshold() {
    let evidence = ClaimEvidence { vrf_value: 5, primary_threshold: 0, ..good() };
    let info = epoch(&[1, 1]);
    assert_eq!(validate_slot_claim(&info, &secondary_plain(1), &evidence), Ok(()));
    assert_eq!(validate_slot_claim(&info, &secondary_vrf(1), &evidence), Ok(()));
}

#[test]
fn secondary_vrf_claim_needs_its_vrf_proof() {
    let evidence = ClaimEvidence { vrf_proof_valid: false, ..good() };
    let info = epoch(&[1, 1]);
    assert_eq!(validate_slot_claim(&info, &secondary_vrf(1), &evidence), Err(ClaimError::BadVrfProof));
    // A plain secondary claim has no VRF proof to check.
    assert_eq!(validate_slot_claim(&info, &secondary_plain(1), &evidence), Ok(()));
}

#[test]
fn every_claim_needs_a_valid_seal() {
    let evidence = ClaimEvidence { seal_valid: false, ..good() };
    let info = epoch(&[1, 1]);
    assert_eq!(validate_slot_claim(&info, &primary(1), &evidence), Err(ClaimError::BadSealSignature));
    assert_eq!(
        validate_slot_claim(&info, &secondary_plain(1), &evidence),
        Err(ClaimError::BadSealSignature)
    );
    assert_eq!(
        validate_slot_claim(&info, &secondary_vrf(1), &evidence),
        Err(ClaimError::BadSealSignature)
    );
}

#[test]
fn the_first_failure_is_reported() {
    let nothing = ClaimEvidence {
        vrf_proof_valid: false,
        vrf_value: 1,
        primary_threshold: 0,
        secondary_author: 0,
        seal_valid: false,
    };
    let info = epoch(&[1, 1]);
    assert_eq!(validate_slot_claim(&info, &primary(1), &nothing), Err(ClaimError::BadVrfProof));
    assert_eq!(
        validate_slot_claim(&info, &secondary_vrf(1), &nothing),
        Err(ClaimError::WrongSecondaryAuthor)
    );
    assert_eq!(
        validate_slot_claim(&info, &primary(2), &nothing),
        Err(ClaimError::AuthorityIndexOutOfRange)
    );
}

#[test]
fn weights_are_summed_without_overflow() {
    assert_eq!(sum_weights(&epoch(&[])), 0);
    assert_eq!(sum_weights(&epoch(&[3, 0, 4])), 7);
    assert_eq!(sum_weights(&epoch(&[u64::MAX, u64::MAX, 2])), 36893488147419103232);
}

#[test]
fn request_for_a_primary_claim() {
    let digest = vec![DigestItem::PreRuntime(primary(1)), DigestItem::Seal([9; 64])];
    let info = header_information(HeaderRef { number: 7, digest: &digest }).unwrap();
    let request = claim_request(&info, &epoch(&[10, 20, 30])).unwrap();
    assert_eq!(
        request,
        ClaimRequest {
            public_key: [1; 32],
            weight: 20,
            total_weight: 60,
            randomness: [0xaa; 32],
            slot_number: 1000,
            vrf: Some(([1; 32], [2; 64])),
            seal_signature: [9; 64],
        }
    );
}

#[test]
fn request_for_secondary_claims() {
    let plain = vec![DigestItem::PreRuntime(secondary_plain(0)), DigestItem::Seal([9; 64])];
    let info = header_information(HeaderRef { number: 7, digest: &plain }).unwrap();
    let request = claim_request(&info, &epoch(&[10, 20])).unwrap();
    assert_eq!((request.public_key, request.weight, request.vrf), ([0; 32], 10, None));

    let vrf = vec![DigestItem::PreRuntime(secondary_vrf(1)), DigestItem::Seal([9; 64])];
    let info = header_information(HeaderRef { number: 7, digest: &vrf }).unwrap();
    let request = claim_request(&info, &epoch(&[10, 20])).unwrap();
    assert_eq!((request.public_key, request.weight, request.vrf), ([1; 32], 20, Some(([3; 32], [4; 64]))));
}

#[test]
fn no_request_for_an_unknown_authority() {
    let digest = vec![DigestItem::PreRuntime(primary(3)), DigestItem::Seal([9; 64])];
    let info = header_information(HeaderRef { number: 7, digest: &digest }).unwrap();
    assert_eq!(claim_request(&info, &epoch(&[10, 20, 30])), None);
}
