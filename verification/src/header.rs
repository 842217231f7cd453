//! The parts of a block header that authorship verification reads.
//!
//! A header is modelled by its block number and by the ordered list of its digest
//! items, each already decoded. Decoding a header from bytes and hashing it are
//! left to the caller.

use vstd::prelude::*;
use vstd::slice::slice_subrange;

verus! {

/// Slot claim made through the VRF lottery.
#[derive(Debug, Clone, Copy, PartialEq, Eq)]
pub struct PrimaryPreDigest {
    /// Index of the claiming authority in the authority list of the epoch.
    pub authority_index: u32,
    /// Slot that the block claims.
    pub slot_number: u64,
    /// Output of the VRF.
    pub vrf_output: [u8; 32],
    /// Proof that `vrf_output` was derived by the claiming authority.
    pub vrf_proof: [u8; 64],
}

/// Slot claim made by the authority that the slot is assigned to.
#[derive(Debug, Clone, Copy, PartialEq, Eq)]
pub struct SecondaryPlainPreDigest {
    /// Index of the claiming authority in the authority list of the epoch.
    pub authority_index: u32,
    /// Slot that the block claims.
    pub slot_number: u64,
}

/// Slot claim made by the authority that the slot is assigned to, together with a
/// VRF output that feeds the randomness of a later epoch.
#[derive(Debug, Clone, Copy, PartialEq, Eq)]
pub struct SecondaryVRFPreDigest {
    /// Index of the claiming authority in the authority list of the epoch.
    pub authority_index: u32,
    /// Slot that the block claims.
    pub slot_number: u64,
    /// Output of the VRF.
    pub vrf_output: [u8; 32],
    /// Proof that `vrf_output` was derived by the claiming authority.
    pub vrf_proof: [u8; 64],
}

/// The slot claim of a block. Every block but the genesis block carries exactly one.
#[derive(Debug, Clone, Copy, PartialEq, Eq)]
pub enum PreDigest {
    Primary(PrimaryPreDigest),
    SecondaryPlain(SecondaryPlainPreDigest),
    SecondaryVRF(SecondaryVRFPreDigest),
}

impl PreDigest {
    /// Slot that the block claims.
    pub open spec fn spec_slot_number(&self) -> u64 {
        match self {
            PreDigest::Primary(digest) => digest.slot_number,
            PreDigest::SecondaryPlain(digest) => digest.slot_number,
            PreDigest::SecondaryVRF(digest) => digest.slot_number,
        }
    }

    /// Slot that the block claims.
    #[verifier::when_used_as_spec(spec_slot_number)]
    pub fn slot_number(&self) -> (slot: u64)
        ensures
            slot == self.spec_slot_number(),
    {
        match self {
            PreDigest::Primary(digest) => digest.slot_number,
            PreDigest::SecondaryPlain(digest) => digest.slot_number,
            PreDigest::SecondaryVRF(digest) => digest.slot_number,
        }
    }

    /// Index of the claiming authority in the authority list of the epoch.
    pub open spec fn spec_authority_index(&self) -> u32 {
        match self {
            PreDigest::Primary(digest) => digest.authority_index,
            PreDigest::SecondaryPlain(digest) => digest.authority_index,
            PreDigest::SecondaryVRF(digest) => digest.authority_index,
        }
    }

    /// Index of the claiming authority in the authority list of the epoch.
    #[verifier::when_used_as_spec(spec_authority_index)]
    pub fn authority_index(&self) -> (index: u32)
        ensures
            index == self.spec_authority_index(),
    {
        match self {
            PreDigest::Primary(digest) => digest.authority_index,
            PreDigest::SecondaryPlain(digest) => digest.authority_index,
            PreDigest::SecondaryVRF(digest) => digest.authority_index,
        }
    }

    /// Whether the claim is a primary one. Primary claims outrank secondary claims
    /// of the same slot when the best chain is selected.
    pub open spec fn spec_is_primary(&self) -> bool {
        self is Primary
    }

    /// Whether the claim is a primary one.
    #[verifier::when_used_as_spec(spec_is_primary)]
    pub fn is_primary(&self) -> (primary: bool)
        ensures
            primary == self.spec_is_primary(),
    {
        match self {
            PreDigest::Primary(_) => true,
            PreDigest::SecondaryPlain(_) => false,
            PreDigest::SecondaryVRF(_) => false,
        }
    }
}

/// Announcement of the authorities and randomness of the epoch that follows the
/// one which the announcing block starts.
#[derive(Debug, Clone, PartialEq, Eq)]
pub struct EpochChangeDigest {
    /// Public key and weight of each authority, in the order by which slot claims
    /// index them.
    pub authorities: Vec<([u8; 32], u64)>,
    /// Randomness of the announced epoch.
    pub randomness: [u8; 32],
}

/// One item of the digest of a header.
#[derive(Debug, Clone, PartialEq, Eq)]
pub enum DigestItem {
    /// The slot claim of the block.
    PreRuntime(PreDigest),
    /// Announcement of the next epoch.
    EpochChange(EpochChangeDigest),
    /// Signature of the block author over the header without this item.
    Seal([u8; 64]),
    /// An item that authorship verification does not read.
    Other,
}

/// A header, borrowed.
#[derive(Debug, Clone, Copy)]
pub struct HeaderRef<'a> {
    /// Number of the block. The genesis block is block 0.
    pub number: u64,
    /// Digest items of the header, in the order in which the header lists them.
    pub digest: &'a [DigestItem],
}

impl<'a> HeaderRef<'a> {
    /// The header without its seal: what the signature in the seal is made over,
    /// once hashed. There is no such header if the last digest item is not a seal.
    pub fn without_seal(self) -> (unsealed: Option<HeaderRef<'a>>)
        ensures
            unsealed is Some <==> self.digest@.len() > 0 && self.digest@.last() is Seal,
            unsealed matches Some(header) ==> header.number == self.number && header.digest@
                == self.digest@.drop_last(),
    {
        let len: usize = self.digest.len();
        if len == 0 {
            return None;
        }
        match &self.digest[len - 1] {
            DigestItem::Seal(_) => Some(
                HeaderRef { number: self.number, digest: slice_subrange(self.digest, 0, len - 1) },
            ),
            _ => None,
        }
    }
}

} // verus!
