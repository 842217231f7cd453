//! Validation of a slot claim against the authorities of its epoch.
//!
//! Whether a VRF proof or a signature verifies, which number a VRF output stands
//! for, which threshold a weight gives and which authority a slot is assigned to
//! is computed by the caller, with the primitives of the chain, from what
//! [`claim_request`] hands out. The verdicts come back as a [`ClaimEvidence`];
//! which of them a claim needs, and in which order they are held against it, is
//! decided here.

use super::header_info::{HeaderInfo, HeaderInfoView};
use super::{EpochInformation, EpochInformationAuthority, EpochInformationView};
use crate::header::PreDigest;
use vstd::prelude::*;

verus! {

/// What the cryptographic primitives say about one slot claim, for one
/// [`EpochInformation`].
#[derive(Debug, Clone, Copy, PartialEq, Eq, Structural)]
pub struct ClaimEvidence {
    /// Whether the VRF proof of the claim verifies against the public key of the
    /// claiming authority, the transcript made of the randomness of the epoch and
    /// the slot number, and the VRF output of the claim. Not read for a claim
    /// without VRF.
    pub vrf_proof_valid: bool,
    /// The VRF output of the claim, as a number drawn uniformly. Read for a
    /// primary claim only.
    pub vrf_value: u128,
    /// The threshold under which the claiming authority wins a slot, computed from
    /// its weight relative to the sum of the weights of all authorities of the
    /// epoch. Read for a primary claim only.
    pub primary_threshold: u128,
    /// Index of the authority that the slot is assigned to. Read for a secondary
    /// claim only.
    pub secondary_author: u32,
    /// Whether the seal of the header is a signature, by the claiming authority, of
    /// the hash of the header without its seal.
    pub seal_valid: bool,
}

/// Why a slot claim is invalid.
#[derive(Debug, Clone, Copy, PartialEq, Eq, Structural)]
pub enum ClaimError {
    /// The claim names an authority that the epoch does not have.
    AuthorityIndexOutOfRange,
    /// The VRF proof does not verify.
    BadVrfProof,
    /// The VRF output of a primary claim is not below the threshold of the
    /// authority.
    ThresholdExceeded,
    /// A secondary claim was made by another authority than the one that the slot
    /// is assigned to.
    WrongSecondaryAuthor,
    /// The seal is not a signature of the claiming authority over the header.
    BadSealSignature,
}

/// Whether `claim`, made in an epoch with `authorities_count` authorities, is
/// valid given `evidence`, and if not, what is wrong with it first.
///
/// The index of the authority comes first. A primary claim then needs its VRF
/// proof and a VRF output below the threshold; a secondary claim must come from the
/// assigned authority, and needs its VRF proof if it has one. The seal comes last.
pub open spec fn claim_outcome(
    authorities_count: nat,
    claim: PreDigest,
    evidence: ClaimEvidence,
) -> Result<(), ClaimError> {
    if claim.spec_authority_index() >= authorities_count {
        Err(ClaimError::AuthorityIndexOutOfRange)
    } else if claim is Primary && !evidence.vrf_proof_valid {
        Err(ClaimError::BadVrfProof)
    } else if claim is Primary && evidence.vrf_value >= evidence.primary_threshold {
        Err(ClaimError::ThresholdExceeded)
    } else if !(claim is Primary) && claim.spec_authority_index() != evidence.secondary_author {
        Err(ClaimError::WrongSecondaryAuthor)
    } else if claim is SecondaryVRF && !evidence.vrf_proof_valid {
        Err(ClaimError::BadVrfProof)
    } else if !evidence.seal_valid {
        Err(ClaimError::BadSealSignature)
    } else {
        Ok(())
    }
}

/// Checks a slot claim against the authorities of its epoch.
pub fn validate_slot_claim(
    epoch_info: &EpochInformation,
    claim: &PreDigest,
    evidence: &ClaimEvidence,
) -> (outcome: Result<(), ClaimError>)
    ensures
        outcome == claim_outcome(epoch_info@.authorities.len(), *claim, *evidence),
{
    let index: u32 = claim.authority_index();
    if index as usize >= epoch_info.authorities.len() {
        return Err(ClaimError::AuthorityIndexOutOfRange);
    }
    match claim {
        PreDigest::Primary(_) => {
            if !evidence.vrf_proof_valid {
                return Err(ClaimError::BadVrfProof);
            }
            if evidence.vrf_value >= evidence.primary_threshold {
                return Err(ClaimError::ThresholdExceeded);
            }
        },
        PreDigest::SecondaryPlain(_) => {
            if index != evidence.secondary_author {
                return Err(ClaimError::WrongSecondaryAuthor);
            }
        },
        PreDigest::SecondaryVRF(_) => {
            if index != evidence.secondary_author {
                return Err(ClaimError::WrongSecondaryAuthor);
            }
            if !evidence.vrf_proof_valid {
                return Err(ClaimError::BadVrfProof);
            }
        },
    }
    if !evidence.seal_valid {
        return Err(ClaimError::BadSealSignature);
    }
    Ok(())
}

/// What the cryptographic primitives are to be evaluated on for one slot claim.
#[derive(Debug, Clone, Copy, PartialEq, Eq)]
pub struct ClaimRequest {
    /// Public key of the claiming authority.
    pub public_key: [u8; 32],
    /// Weight of the claiming authority.
    pub weight: u64,
    /// Sum of the weights of all authorities of the epoch.
    pub total_weight: u128,
    /// Randomness of the epoch.
    pub randomness: [u8; 32],
    /// Slot that the block claims.
    pub slot_number: u64,
    /// VRF output and VRF proof of the claim, if it has them.
    pub vrf: Option<([u8; 32], [u8; 64])>,
    /// Signature that seals the header.
    pub seal_signature: [u8; 64],
}

/// Sum of the weights of `authorities`.
pub open spec fn total_weight(authorities: Seq<EpochInformationAuthority>) -> nat
    decreases authorities.len(),
{
    if authorities.len() == 0 {
        0
    } else {
        total_weight(authorities.drop_last()) + authorities.last().weight as nat
    }
}

/// VRF output and VRF proof of `claim`, if it has them.
pub open spec fn vrf_of(claim: PreDigest) -> Option<([u8; 32], [u8; 64])> {
    match claim {
        PreDigest::Primary(digest) => Some((digest.vrf_output, digest.vrf_proof)),
        PreDigest::SecondaryPlain(_) => None,
        PreDigest::SecondaryVRF(digest) => Some((digest.vrf_output, digest.vrf_proof)),
    }
}

/// What [`claim_request`] hands out for a header that holds `info`, as a header of
/// the epoch `epoch_info`.
pub open spec fn claim_request_spec(
    info: HeaderInfoView,
    epoch_info: EpochInformationView,
) -> Option<ClaimRequest> {
    let index: int = info.pre_runtime.spec_authority_index() as int;
    if index >= epoch_info.authorities.len() {
        None
    } else {
        Some(
            ClaimRequest {
                public_key: epoch_info.authorities[index].public_key,
                weight: epoch_info.authorities[index].weight,
                total_weight: total_weight(epoch_info.authorities) as u128,
                randomness: epoch_info.randomness,
                slot_number: info.pre_runtime.spec_slot_number(),
                vrf: vrf_of(info.pre_runtime),
                seal_signature: info.seal_signature,
            },
        )
    }
}

/// The sum of the weights is at most as many times the largest weight as there are
/// authorities.
proof fn lemma_total_weight_bounded(authorities: Seq<EpochInformationAuthority>)
    ensures
        total_weight(authorities) <= authorities.len() * u64::MAX,
    decreases authorities.len(),
{
    if authorities.len() > 0 {
        lemma_total_weight_bounded(authorities.drop_last());
        assert((authorities.len() - 1) * u64::MAX + u64::MAX == authorities.len() * u64::MAX)
            by (nonlinear_arith);
    }
}

/// Computes the sum of the weights of the authorities of an epoch.
pub fn sum_weights(epoch_info: &EpochInformation) -> (sum: u128)
    ensures
        sum == total_weight(epoch_info@.authorities),
{
    let len: usize = epoch_info.authorities.len();
    let mut sum: u128 = 0;
    let mut k: usize = 0;
    while k < len
        invariant
            k <= len == epoch_info.authorities@.len(),
            sum == total_weight(epoch_info.authorities@.subrange(0, k as int)),
        decreases len - k,
    {
        proof {
            let next: Seq<EpochInformationAuthority> = epoch_info.authorities@.subrange(0, k + 1);
            assert(next.drop_last() =~= epoch_info.authorities@.subrange(0, k as int));
            lemma_total_weight_bounded(next);
            assert(next.len() * u64::MAX <= u64::MAX * u64::MAX) by (nonlinear_arith)
                requires
                    next.len() <= u64::MAX,
            ;
        }
        sum += epoch_info.authorities[k].weight as u128;
        k += 1;
    }
    assert(epoch_info.authorities@.subrange(0, len as int) =~= epoch_info.authorities@);
    sum
}

/// Tells what the cryptographic primitives are to be evaluated on for the slot
/// claim of a header, as a header of the epoch `epoch_info`: the key and weight of
/// the authority that the claim names, the sum of all weights, and the randomness
/// of the epoch; the slot and the VRF output and proof of the claim; the seal.
///
/// There is nothing to evaluate, and the claim is invalid, if it names an
/// authority that the epoch does not have.
pub fn claim_request<'a>(
    info: &HeaderInfo<'a>,
    epoch_info: &EpochInformation,
) -> (request: Option<ClaimRequest>)
    ensures
        request == claim_request_spec(info@, epoch_info@),
        request is None <==> info.pre_runtime.spec_authority_index()
            >= epoch_info@.authorities.len(),
{
    let index: usize = info.pre_runtime.authority_index() as usize;
    if index >= epoch_info.authorities.len() {
        return None;
    }
    let authority: EpochInformationAuthority = epoch_info.authorities[index];
    let vrf: Option<([u8; 32], [u8; 64])> = match info.pre_runtime {
        PreDigest::Primary(digest) => Some((digest.vrf_output, digest.vrf_proof)),
        PreDigest::SecondaryPlain(_) => None,
        PreDigest::SecondaryVRF(digest) => Some((digest.vrf_output, digest.vrf_proof)),
    };
    Some(
        ClaimRequest {
            public_key: authority.public_key,
            weight: authority.weight,
            total_weight: sum_weights(epoch_info),
            randomness: epoch_info.randomness,
            slot_number: info.slot_number(),
            vrf,
            seal_signature: info.seal_signature,
        },
    )
}

} // verus!
