use babe_verify::babe::header_info::{header_information, Error};
use babe_verify::header::{
    DigestItem, EpochChangeDigest, HeaderRef, PreDigest, PrimaryPreDigest,
    SecondaryPlainPreDigest, SecondaryVRFPreDigest,
};

fn primary(slot_number: u64) -> PreDigest {
    PreDigest::Primary(PrimaryPreDigest {
        authority_index: 3,
        slot_number,
        vrf_output: [1; 32],
        vrf_proof: [2; 64],
    })
}

fn announcement(randomness: u8) -> EpochChangeDigest {
    EpochChangeDigest { authorities: vec![([5; 32], 1)], randomness: [randomness; 32] }
}

#[test]
fn information_of_a_sealed_header() {
    let digest = vec![DigestItem::Other, DigestItem::PreRuntime(primary(42)), DigestItem::Seal([7; 64])];
    let info = header_information(HeaderRef { number: 9, digest: &digest }).unwrap();
    assert_eq!(info.seal_signature, [7; 64]);
    assert_eq!(info.pre_runtime, primary(42));
    assert_eq!(info.slot_number(), 42);
    assert!(info.epoch_change.is_none());
}

#[test]
fn information_with_an_epoch_announcement() {
    let digest = vec![
        DigestItem::EpochChange(announcement(8)),
        DigestItem::PreRuntime(primary(42)),
        DigestItem::Other,
        DigestItem::Seal([7; 64]),
    ];
    let info = header_information(HeaderRef { number: 9, digest: &digest }).unwrap();
    assert_eq!(info.pre_runtime, primary(42));
    assert_eq!(info.epoch_change, Some(&announcement(8)));
}

#[test]
fn header_without_digest_misses_its_seal() {
    let digest = Vec::new();
    let info = header_information(HeaderRef { number: 0, digest: &digest });
    assert_eq!(info.unwrap_err(), Error::MissingSeal);
}

#[test]
fn seal_must_come_last() {
    let digest = vec![DigestItem::Seal([7; 64]), DigestItem::PreRuntime(primary(42))];
    let info = header_information(HeaderRef { number: 9, digest: &digest });
    assert_eq!(info.unwrap_err(), Error::MissingSeal);
}

#[test]
fn header_without_slot_claim() {
    let digest = vec![DigestItem::EpochChange(announcement(8)), DigestItem::Seal([7; 64])];
    let info = header_information(HeaderRef { number: 9, digest: &digest });
    assert_eq!(info.unwrap_err(), Error::NoPreRuntimeDigest);
}

#[test]
fn header_with_two_slot_claims() {
    let digest = vec![
        DigestItem::PreRuntime(primary(42)),
        DigestItem::PreRuntime(primary(42)),
        DigestItem::Seal([7; 64]),
    ];
    let info = header_information(HeaderRef { number: 9, digest: &digest });
    assert_eq!(info.unwrap_err(), Error::MultiplePreRuntimeDigests);
}

#[test]
fn header_with_two_epoch_announcements() {
    let digest = vec![
        DigestItem::EpochChange(announcement(8)),
        DigestItem::PreRuntime(primary(42)),
        DigestItem::EpochChange(announcement(9)),
        DigestItem::Seal([7; 64]),
    ];
    let info = header_information(HeaderRef { number: 9, digest: &digest });
    assert_eq!(info.unwrap_err(), Error::MultipleEpochChangeDigests);
}

#[test]
fn two_slot_claims_are_reported_before_two_announcements() {
    let digest = vec![
        DigestItem::EpochChange(announcement(8)),
        DigestItem::EpochChange(announcement(9)),
        DigestItem::PreRuntime(primary(42)),
        DigestItem::PreRuntime(primary(43)),
        DigestItem::Seal([7; 64]),
    ];
    let info = header_information(HeaderRef { number: 9, digest: &digest });
    assert_eq!(info.unwrap_err(), Error::MultiplePreRuntimeDigests);
}

#[test]
fn claim_accessors_read_every_kind_of_claim() {
    let plain = PreDigest::SecondaryPlain(SecondaryPlainPreDigest { authority_index: 4, slot_number: 77 });
    let vrf = PreDigest::SecondaryVRF(SecondaryVRFPreDigest {
        authority_index: 5,
        slot_number: 78,
        vrf_output: [0; 32],
        vrf_proof: [0; 64],
    });
    assert_eq!((primary(76).authority_index(), primary(76).slot_number(), primary(76).is_primary()), (3, 76, true));
    assert_eq!((plain.authority_index(), plain.slot_number(), plain.is_primary()), (4, 77, false));
    assert_eq!((vrf.authority_index(), vrf.slot_number(), vrf.is_primary()), (5, 78, false));
}

#[test]
fn header_without_its_seal() {
    let digest = vec![DigestItem::PreRuntime(primary(42)), DigestItem::Other, DigestItem::Seal([7; 64])];
    let unsealed = HeaderRef { number: 9, digest: &digest }.without_seal().unwrap();
    assert_eq!(unsealed.number, 9);
    assert_eq!(unsealed.digest, &digest[..2]);
}

#[test]
fn no_seal_to_take_off() {
    let digest = vec![DigestItem::PreRuntime(primary(42)), DigestItem::Other];
    assert!(HeaderRef { number: 9, digest: &digest }.without_seal().is_none());
    let empty = Vec::new();
    assert!(HeaderRef { number: 0, digest: &empty }.without_seal().is_none());
}
