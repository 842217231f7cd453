//! BABE consensus.
//!
//! BABE, or Blind Assignment for Blockchain Extension, is the consensus algorithm
//! that determines who is authorized to generate a block.
//!
//! # Overview of BABE
//!
//! Time is divided into non-overlapping **epochs**, themselves divided into
//! **slots**. Every block but the genesis block belongs to one slot, which its
//! header claims together with the index of its author in the list of authorities
//! of the epoch.
//!
//! The header of the first block of an epoch announces the authorities and the
//! randomness of the epoch after it. Epochs 0 and 1 have no such announcement:
//! their authorities are those of the chain-wide genesis configuration.
//!
//! # Usage
//!
//! Verifying a BABE block is done in two phases:
//!
//! - First, call [`start_verify_header`]. For a block of epoch 0 or 1 everything
//!   is at hand and the verification completes.
//! - For a block of a later epoch [`SuccessOrPending::Pending`] is returned, and
//!   [`PendingVerify::finish`] takes the [`EpochInformation`] of the epoch of the
//!   block.
//!
//! The cryptographic primitives are evaluated by the caller, see [`claim`].

use crate::header::{EpochChangeDigest, HeaderRef, PreDigest};
use core::time::Duration;
use vstd::prelude::*;

pub mod chain_config;
pub mod chain_selection;
pub mod claim;
pub mod epoch;
pub mod header_info;

pub use chain_config::BabeGenesisConfiguration;
pub use claim::{ClaimError, ClaimEvidence};
pub use epoch::{slot_number_to_epoch, ArithmeticError};

use claim::{claim_outcome, validate_slot_claim};
use epoch::{epoch_of_slot, lemma_epoch_non_decreasing};
use header_info::{header_information, header_information_spec, HeaderInfo};

verus! {

/// Configuration for [`start_verify_header`].
#[derive(Debug, Clone, Copy)]
pub struct VerifyConfig<'a> {
    /// Header of the block to verify.
    pub header: HeaderRef<'a>,
    /// Time elapsed since the Unix Epoch (i.e. 00:00:00 UTC on 1 January 1970),
    /// ignoring leap seconds. Not read by the verification.
    pub now_from_unix_epoch: Duration,
    /// Header of the parent of the block to verify.
    ///
    /// [`start_verify_header`] assumes that this block has been successfully
    /// verified before.
    pub parent_block_header: HeaderRef<'a>,
    /// BABE configuration retrieved from the genesis block.
    pub genesis_configuration: &'a BabeGenesisConfiguration,
    /// Slot number of block #1. **Must** be provided, unless the block being
    /// verified is block #1 itself.
    pub block1_slot_number: Option<u64>,
    /// Verdicts of the cryptographic primitives on the slot claim of the header,
    /// for the authorities and randomness of the genesis configuration. Read only
    /// if the block belongs to epoch 0 or 1.
    pub genesis_claim_evidence: ClaimEvidence,
}

/// Information about a specific authority.
#[derive(Debug, Clone, Copy, PartialEq, Eq)]
pub struct EpochInformationAuthority {
    /// Ristretto public key that is authorized to sign blocks.
    pub public_key: [u8; 32],
    /// An arbitrary weight value applied to this authority.
    ///
    /// These values don't have any meaning in the absolute, only relative to each
    /// other. An authority with twice the weight value as another authority will be
    /// able to claim twice as many slots.
    pub weight: u64,
}

/// Information about an epoch.
///
/// Obtained as part of the [`VerifySuccess`] returned after verifying a block.
#[derive(Debug, Clone, PartialEq, Eq)]
pub struct EpochInformation {
    /// List of authorities that are allowed to sign blocks during this epoch.
    ///
    /// The order of the authorities in the list is important, as blocks contain the
    /// index, in that list, of the authority that signed them.
    pub authorities: Vec<EpochInformationAuthority>,
    /// High-entropy data that can be used as a source of randomness during this
    /// epoch.
    pub randomness: [u8; 32],
}

/// What an [`EpochInformation`] holds.
pub struct EpochInformationView {
    pub authorities: Seq<EpochInformationAuthority>,
    pub randomness: [u8; 32],
}

impl View for EpochInformation {
    type V = EpochInformationView;

    open spec fn view(&self) -> EpochInformationView {
        EpochInformationView { authorities: self.authorities@, randomness: self.randomness }
    }
}

/// The epoch that `digest` announces.
pub open spec fn announced_epoch(digest: EpochChangeDigest) -> EpochInformationView {
    EpochInformationView {
        authorities: Seq::new(
            digest.authorities@.len(),
            |i: int|
                EpochInformationAuthority {
                    public_key: digest.authorities@[i].0,
                    weight: digest.authorities@[i].1,
                },
        ),
        randomness: digest.randomness,
    }
}

impl EpochInformation {
    /// The epoch that `digest` announces: its authorities in the same order, and
    /// its randomness.
    pub fn from_epoch_change(digest: &EpochChangeDigest) -> (information: EpochInformation)
        ensures
            information@ == announced_epoch(*digest),
    {
        let mut authorities: Vec<EpochInformationAuthority> = Vec::new();
        let len: usize = digest.authorities.len();
        let mut k: usize = 0;
        while k < len
            invariant
                k <= len == digest.authorities@.len(),
                authorities@.len() == k,
                forall|i: int|
                    0 <= i < k ==> authorities@[i] == (EpochInformationAuthority {
                        public_key: digest.authorities@[i].0,
                        weight: digest.authorities@[i].1,
                    }),
            decreases len - k,
        {
            let (public_key, weight): ([u8; 32], u64) = digest.authorities[k];
            authorities.push(EpochInformationAuthority { public_key, weight });
            k += 1;
        }
        assert(authorities@ =~= announced_epoch(*digest).authorities);
        EpochInformation { authorities, randomness: digest.randomness }
    }
}

/// Information yielded back after successfully verifying a block.
#[derive(Debug, Clone, PartialEq, Eq)]
pub struct VerifySuccess {
    /// If `Some`, the verified block contains an epoch transition. This epoch
    /// transition must later be provided back as the [`EpochInformation`] of the
    /// blocks that are part of that epoch: the epoch after the one that the
    /// verified block starts.
    pub epoch_change: Option<EpochInformation>,
    /// Slot number the block belongs to.
    pub slot_number: u64,
}

/// What a [`VerifySuccess`] holds.
pub struct VerifySuccessView {
    pub epoch_change: Option<EpochInformationView>,
    pub slot_number: u64,
}

impl View for VerifySuccess {
    type V = VerifySuccessView;

    open spec fn view(&self) -> VerifySuccessView {
        VerifySuccessView {
            epoch_change: match self.epoch_change {
                Some(information) => Some(information@),
                None => None,
            },
            slot_number: self.slot_number,
        }
    }
}

/// Failure to verify a block.
#[derive(Debug, Clone, Copy, PartialEq, Eq, Structural)]
pub enum VerifyError {
    /// Error while reading information from the header.
    BadHeader(header_info::Error),
    /// Slot number must be strictly increasing between a parent and its child.
    SlotNumberNotIncreasing,
    /// Block contains an epoch change digest log, but no epoch change is to be
    /// performed.
    UnexpectedEpochChangeLog,
    /// Block is the first block after a new epoch, but it is missing an epoch change
    /// digest log.
    MissingEpochChangeLog,
    /// Error while reading information from the header of the parent, which
    /// therefore cannot have been verified.
    BadParentHeader(header_info::Error),
    /// The slot number of block #1 is needed to tell the epoch of a block other
    /// than block #1, and was not provided.
    MissingBlock1SlotNumber,
    /// A slot number has no epoch.
    ArithmeticError(ArithmeticError),
    /// The slot claim of the block is invalid.
    InvalidClaim(ClaimError),
}

/// The epoch of block `number`, which claims `slot_number`. Block #1 belongs to
/// epoch 0 whatever its slot; the epoch of any other block follows from its slot
/// and the slot of block #1.
pub open spec fn block_epoch(
    number: u64,
    slot_number: u64,
    slots_per_epoch: u64,
    block1_slot_number: Option<u64>,
) -> Result<u64, VerifyError> {
    if number == 1 {
        Ok(0)
    } else {
        match block1_slot_number {
            None => Err(VerifyError::MissingBlock1SlotNumber),
            Some(block1) => match epoch_of_slot(slot_number, slots_per_epoch, block1) {
                Ok(epoch) => Ok(epoch),
                Err(error) => Err(VerifyError::ArithmeticError(error)),
            },
        }
    }
}

/// The slot that the parent block claims. The genesis block claims none.
pub open spec fn parent_slot_number(parent: HeaderRef) -> Result<Option<u64>, VerifyError> {
    if parent.number == 0 {
        Ok(None)
    } else {
        match header_information_spec(parent.digest@) {
            Ok(info) => Ok(Some(info.pre_runtime.spec_slot_number())),
            Err(error) => Err(VerifyError::BadParentHeader(error)),
        }
    }
}

/// What the verification learns from the two headers alone.
pub struct Structure {
    /// Slot claim of the block.
    pub pre_runtime: PreDigest,
    /// Epoch of the block.
    pub epoch_number: u64,
    /// Epoch of the parent block.
    pub parent_epoch_number: u64,
    /// The epoch that the block announces, if it announces one.
    pub epoch_change: Option<EpochInformationView>,
}

impl<'a> VerifyConfig<'a> {
    /// The slot that the block to verify claims.
    pub open spec fn slot_number(&self) -> Result<u64, VerifyError> {
        match header_information_spec(self.header.digest@) {
            Err(error) => Err(VerifyError::BadHeader(error)),
            Ok(info) => Ok(info.pre_runtime.spec_slot_number()),
        }
    }

    /// The epoch of the block to verify.
    pub open spec fn epoch_number(&self) -> Result<u64, VerifyError> {
        match header_information_spec(self.header.digest@) {
            Err(error) => Err(VerifyError::BadHeader(error)),
            Ok(info) => block_epoch(
                self.header.number,
                info.pre_runtime.spec_slot_number(),
                self.genesis_configuration.spec_slots_per_epoch(),
                self.block1_slot_number,
            ),
        }
    }

    /// The epoch of the parent block. The genesis block counts as epoch 0.
    pub open spec fn parent_epoch_number(&self) -> Result<u64, VerifyError> {
        match parent_slot_number(self.parent_block_header) {
            Err(error) => Err(error),
            Ok(None) => Ok(0),
            Ok(Some(slot_number)) => block_epoch(
                self.parent_block_header.number,
                slot_number,
                self.genesis_configuration.spec_slots_per_epoch(),
                self.block1_slot_number,
            ),
        }
    }

    /// The outcome of the checks that need the two headers only: both headers can
    /// be read, both blocks have an epoch, and the block announces an epoch if and
    /// only if its epoch differs from that of its parent.
    pub open spec fn structure(&self) -> Result<Structure, VerifyError> {
        match header_information_spec(self.header.digest@) {
            Err(error) => Err(VerifyError::BadHeader(error)),
            Ok(info) => match self.epoch_number() {
                Err(error) => Err(error),
                Ok(epoch_number) => match self.parent_epoch_number() {
                    Err(error) => Err(error),
                    Ok(parent_epoch_number) => if info.epoch_change is Some && epoch_number
                        == parent_epoch_number {
                        Err(VerifyError::UnexpectedEpochChangeLog)
                    } else if info.epoch_change is None && epoch_number != parent_epoch_number {
                        Err(VerifyError::MissingEpochChangeLog)
                    } else {
                        Ok(
                            Structure {
                                pre_runtime: info.pre_runtime,
                                epoch_number,
                                parent_epoch_number,
                                epoch_change: match info.epoch_change {
                                    Some(digest) => Some(announced_epoch(digest)),
                                    None => None,
                                },
                            },
                        )
                    },
                },
            },
        }
    }

    /// The outcome of the whole verification of the block, as a block of an epoch
    /// with `authorities_count` authorities for which the cryptographic primitives
    /// gave `evidence`.
    ///
    /// The checks come in this order: the header can be read; the header of the
    /// parent can be read; the slot is later than that of the parent; the slot
    /// claim is valid; the checks of [`VerifyConfig::structure`].
    pub open spec fn outcome(
        &self,
        authorities_count: nat,
        evidence: ClaimEvidence,
    ) -> Result<VerifySuccessView, VerifyError> {
        match header_information_spec(self.header.digest@) {
            Err(error) => Err(VerifyError::BadHeader(error)),
            Ok(info) => match parent_slot_number(self.parent_block_header) {
                Err(error) => Err(error),
                Ok(parent_slot) => if parent_slot is Some && info.pre_runtime.spec_slot_number()
                    <= parent_slot->Some_0 {
                    Err(VerifyError::SlotNumberNotIncreasing)
                } else {
                    match claim_outcome(authorities_count, info.pre_runtime, evidence) {
                        Err(error) => Err(VerifyError::InvalidClaim(error)),
                        Ok(_) => match self.structure() {
                            Err(error) => Err(error),
                            Ok(structure) => Ok(
                                VerifySuccessView {
                                    epoch_change: structure.epoch_change,
                                    slot_number: info.pre_runtime.spec_slot_number(),
                                },
                            ),
                        },
                    }
                },
            },
        }
    }
}

/// Whether `result` is what `expected` describes.
pub open spec fn verify_result_is(
    result: Result<VerifySuccess, VerifyError>,
    expected: Result<VerifySuccessView, VerifyError>,
) -> bool {
    match expected {
        Ok(view) => result matches Ok(success) && success@ == view,
        Err(error) => result matches Err(found) && found == error,
    }
}

/// Computes the epoch of a block, see [`block_epoch`].
fn block_epoch_number(
    number: u64,
    slot_number: u64,
    genesis_configuration: &BabeGenesisConfiguration,
    block1_slot_number: Option<u64>,
) -> (epoch: Result<u64, VerifyError>)
    ensures
        epoch == block_epoch(
            number,
            slot_number,
            genesis_configuration.spec_slots_per_epoch(),
            block1_slot_number,
        ),
{
    if number == 1 {
        return Ok(0);
    }
    let block1: u64 = match block1_slot_number {
        Some(block1) => block1,
        None => return Err(VerifyError::MissingBlock1SlotNumber),
    };
    match slot_number_to_epoch(slot_number, genesis_configuration, block1) {
        Ok(epoch) => Ok(epoch),
        Err(error) => Err(VerifyError::ArithmeticError(error)),
    }
}

/// Reads the slot of the parent block, see [`parent_slot_number`].
fn read_parent_slot<'a>(parent: HeaderRef<'a>) -> (slot: Result<Option<u64>, VerifyError>)
    ensures
        slot == parent_slot_number(parent),
{
    if parent.number == 0 {
        return Ok(None);
    }
    match header_information(parent) {
        Ok(info) => Ok(Some(info.slot_number())),
        Err(error) => Err(VerifyError::BadParentHeader(error)),
    }
}

/// What [`check_structure`] found, see [`Structure`].
struct CheckedStructure {
    epoch_number: u64,
    epoch_change: Option<EpochInformation>,
}

/// Whether `checked` is what `expected` describes.
spec fn checked_structure_is(
    checked: Result<CheckedStructure, VerifyError>,
    expected: Result<Structure, VerifyError>,
) -> bool {
    match expected {
        Ok(structure) => {
            &&& checked matches Ok(found)
            &&& found.epoch_number == structure.epoch_number
            &&& structure.epoch_change == match found.epoch_change {
                Some(information) => Some(information@),
                None => None,
            }
        },
        Err(error) => checked matches Err(found) && found == error,
    }
}

/// Runs the checks that need the two headers only, on a header that `info` was
/// extracted from.
fn check_structure<'a>(
    config: &VerifyConfig<'a>,
    info: &HeaderInfo<'a>,
) -> (checked: Result<CheckedStructure, VerifyError>)
    requires
        header_information_spec(config.header.digest@) == Ok::<_, header_info::Error>(info@),
    ensures
        checked_structure_is(checked, config.structure()),
{
    let epoch_number: u64 = match block_epoch_number(
        config.header.number,
        info.slot_number(),
        config.genesis_configuration,
        config.block1_slot_number,
    ) {
        Ok(epoch) => epoch,
        Err(error) => return Err(error),
    };
    let parent_epoch_number: u64 = match read_parent_slot(config.parent_block_header) {
        Err(error) => return Err(error),
        Ok(None) => 0,
        Ok(Some(slot_number)) => match block_epoch_number(
            config.parent_block_header.number,
            slot_number,
            config.genesis_configuration,
            config.block1_slot_number,
        ) {
            Ok(epoch) => epoch,
            Err(error) => return Err(error),
        },
    };
    // Make sure that the expected epoch transitions corresponds to what the block
    // reports.
    match info.epoch_change {
        Some(digest) => {
            if epoch_number == parent_epoch_number {
                return Err(VerifyError::UnexpectedEpochChangeLog);
            }
            Ok(
                CheckedStructure {
                    epoch_number,
                    epoch_change: Some(EpochInformation::from_epoch_change(digest)),
                },
            )
        },
        None => {
            if epoch_number != parent_epoch_number {
                return Err(VerifyError::MissingEpochChangeLog);
            }
            Ok(CheckedStructure { epoch_number, epoch_change: None })
        },
    }
}

/// Runs the whole verification of the block of `config`, as a block of the epoch
/// `epoch_info`.
fn verify_claimed_block<'a>(
    config: &VerifyConfig<'a>,
    epoch_info: &EpochInformation,
    evidence: &ClaimEvidence,
) -> (result: Result<VerifySuccess, VerifyError>)
    ensures
        verify_result_is(result, config.outcome(epoch_info@.authorities.len(), *evidence)),
{
    let info: HeaderInfo<'a> = match header_information(config.header) {
        Ok(info) => info,
        Err(error) => return Err(VerifyError::BadHeader(error)),
    };
    let slot_number: u64 = info.slot_number();
    match read_parent_slot(config.parent_block_header) {
        Err(error) => return Err(error),
        Ok(None) => {},
        Ok(Some(parent_slot_number)) => {
            if slot_number <= parent_slot_number {
                return Err(VerifyError::SlotNumberNotIncreasing);
            }
        },
    }
    match validate_slot_claim(epoch_info, &info.pre_runtime, evidence) {
        Ok(_) => {},
        Err(error) => return Err(VerifyError::InvalidClaim(error)),
    }
    match check_structure(config, &info) {
        Ok(checked) => Ok(VerifySuccess { epoch_change: checked.epoch_change, slot_number }),
        Err(error) => Err(error),
    }
}

/// Whether `success`, on the block of `config`, carries the announcement of an
/// epoch if and only if the epoch of the block differs from that of its parent.
pub open spec fn announces_iff_epoch_differs(
    config: VerifyConfig,
    success: VerifySuccessView,
) -> bool {
    &&& config.epoch_number() is Ok
    &&& config.parent_epoch_number() is Ok
    &&& success.epoch_change is Some <==> config.epoch_number()->Ok_0
        != config.parent_epoch_number()->Ok_0
}

/// Whether the slot of `success`, on the block of `config`, is later than the slot
/// of the parent block. The genesis block has no slot: any slot comes after it.
pub open spec fn slot_after_parent(config: VerifyConfig, success: VerifySuccessView) -> bool {
    &&& parent_slot_number(config.parent_block_header) is Ok
    &&& parent_slot_number(config.parent_block_header)->Ok_0 matches Some(parent_slot)
        ==> success.slot_number > parent_slot
}

/// A block is only ever verified with a slot later than that of its parent, and
/// with the announcement of an epoch exactly where its epoch differs from that of
/// its parent. The slot reported is the slot that its header claims.
pub proof fn lemma_verified_pair(
    config: VerifyConfig,
    authorities_count: nat,
    evidence: ClaimEvidence,
)
    requires
        config.outcome(authorities_count, evidence) is Ok,
    ensures
        announces_iff_epoch_differs(config, config.outcome(authorities_count, evidence)->Ok_0),
        slot_after_parent(config, config.outcome(authorities_count, evidence)->Ok_0),
        config.slot_number() == Ok::<u64, VerifyError>(
            config.outcome(authorities_count, evidence)->Ok_0.slot_number,
        ),
{
}

/// A block whose slot is not later than that of its parent is rejected for that
/// reason, and for no other, as soon as both headers can be read.
pub proof fn lemma_slot_not_increasing(
    config: VerifyConfig,
    authorities_count: nat,
    evidence: ClaimEvidence,
)
    requires
        config.slot_number() is Ok,
        parent_slot_number(config.parent_block_header) matches Ok(Some(parent_slot))
            && config.slot_number()->Ok_0 <= parent_slot,
    ensures
        config.outcome(authorities_count, evidence) == Err::<VerifySuccessView, VerifyError>(
            VerifyError::SlotNumberNotIncreasing,
        ),
{
}

/// Epoch numbers do not decrease along a chain: a verified block that follows its
/// parent by number lies in the epoch of its parent or in a later one.
pub proof fn lemma_epoch_non_decreasing_along_chain(
    config: VerifyConfig,
    authorities_count: nat,
    evidence: ClaimEvidence,
)
    requires
        config.outcome(authorities_count, evidence) is Ok,
        config.header.number == config.parent_block_header.number + 1,
        config.genesis_configuration.spec_slots_per_epoch() > 0,
    ensures
        config.epoch_number() is Ok,
        config.parent_epoch_number() is Ok,
        config.parent_epoch_number()->Ok_0 <= config.epoch_number()->Ok_0,
{
    if config.parent_block_header.number > 1 {
        let block1: u64 = config.block1_slot_number->Some_0;
        let parent_slot: u64 = parent_slot_number(config.parent_block_header)->Ok_0->Some_0;
        let slot: u64 = config.slot_number()->Ok_0;
        lemma_epoch_non_decreasing(
            parent_slot,
            slot,
            config.genesis_configuration.spec_slots_per_epoch(),
            block1,
        );
    }
}

/// Verification in progress, or already done.
#[must_use]
#[derive(Debug)]
pub enum SuccessOrPending<'a> {
    /// The block is **not** fully verified yet. You must call
    /// [`PendingVerify::finish`] in order to finish the verification.
    Pending(PendingVerify<'a>),
    /// The block is verified.
    Success(VerifySuccess),
}

/// What [`start_verify_header`] is to return.
pub enum StartView {
    /// The block belongs to the epoch `epoch_number`, whose information the caller
    /// has to provide.
    Pending { epoch_number: u64 },
    /// The block is verified.
    Success(VerifySuccessView),
}

impl<'a> VerifyConfig<'a> {
    /// What [`start_verify_header`] is to return.
    ///
    /// The checks of [`VerifyConfig::structure`] come first. A block of epoch 0 or
    /// 1 is then verified to the end, see [`VerifyConfig::outcome`], against the
    /// authorities and the evidence that the configuration holds. A block of a
    /// later epoch is left pending.
    pub open spec fn start_outcome(&self) -> Result<StartView, VerifyError> {
        match self.structure() {
            Err(error) => Err(error),
            Ok(structure) => if structure.epoch_number <= 1 {
                match self.outcome(
                    self.genesis_configuration.spec_epoch0_information()@.authorities.len(),
                    self.genesis_claim_evidence,
                ) {
                    Ok(success) => Ok(StartView::Success(success)),
                    Err(error) => Err(error),
                }
            } else {
                Ok(StartView::Pending { epoch_number: structure.epoch_number })
            },
        }
    }
}

/// Whether `result`, returned for `config`, is what `expected` describes.
pub open spec fn start_result_is(
    result: Result<SuccessOrPending, VerifyError>,
    config: VerifyConfig,
    expected: Result<StartView, VerifyError>,
) -> bool {
    match expected {
        Err(error) => result matches Err(found) && found == error,
        Ok(StartView::Success(view)) => result matches Ok(SuccessOrPending::Success(success))
            && success@ == view,
        Ok(StartView::Pending { epoch_number }) => result matches Ok(
            SuccessOrPending::Pending(pending),
        ) && pending.spec_config() == config && pending.spec_epoch_number() == epoch_number,
    }
}

/// Verifies whether a block header provides a correct proof of the legitimacy of
/// the authorship.
///
/// Returns either a [`PendingVerify`] if more information is needed, or a
/// [`VerifySuccess`] if the verification could be successfully performed.
pub fn start_verify_header<'a>(
    config: VerifyConfig<'a>,
) -> (result: Result<SuccessOrPending<'a>, VerifyError>)
    ensures
        start_result_is(result, config, config.start_outcome()),
        result matches Ok(SuccessOrPending::Success(success)) ==> announces_iff_epoch_differs(
            config,
            success@,
        ) && slot_after_parent(config, success@) && config.epoch_number()->Ok_0 <= 1,
        result matches Ok(SuccessOrPending::Pending(pending)) ==> config.epoch_number()
            == Ok::<u64, VerifyError>(pending.spec_epoch_number()),
{
    let info: HeaderInfo<'a> = match header_information(config.header) {
        Ok(info) => info,
        Err(error) => return Err(VerifyError::BadHeader(error)),
    };
    let checked: CheckedStructure = match check_structure(&config, &info) {
        Ok(checked) => checked,
        Err(error) => return Err(error),
    };
    if checked.epoch_number <= 1 {
        // Epochs 0 and 1 are those of the genesis configuration.
        match verify_claimed_block(
            &config,
            config.genesis_configuration.epoch0_information(),
            &config.genesis_claim_evidence,
        ) {
            Ok(success) => Ok(SuccessOrPending::Success(success)),
            Err(error) => Err(error),
        }
    } else {
        Ok(SuccessOrPending::Pending(PendingVerify { config, epoch_number: checked.epoch_number }))
    }
}

/// Verification in progress. The block is **not** fully verified yet. You must
/// call [`PendingVerify::finish`] in order to finish the verification.
///
/// The two headers have been read, and the block belongs to an epoch after epoch
/// 1, which it announces if and only if its parent belongs to another epoch.
#[must_use]
#[derive(Debug, Clone, Copy)]
pub struct PendingVerify<'a> {
    config: VerifyConfig<'a>,
    epoch_number: u64,
}

impl<'a> PendingVerify<'a> {
    #[verifier::type_invariant]
    spec fn well_formed(self) -> bool {
        &&& self.config.structure() matches Ok(structure) && structure.epoch_number
            == self.epoch_number
        &&& self.epoch_number > 1
    }

    /// The configuration that the verification was started with.
    pub closed spec fn spec_config(&self) -> VerifyConfig<'a> {
        self.config
    }

    /// The epoch that the block belongs to.
    pub closed spec fn spec_epoch_number(&self) -> u64 {
        self.epoch_number
    }

    /// The configuration that the verification was started with.
    pub fn config(&self) -> (config: &VerifyConfig<'a>)
        ensures
            *config == self.spec_config(),
    {
        &self.config
    }

    /// The epoch that the block belongs to: the one whose [`EpochInformation`]
    /// [`PendingVerify::finish`] is to be given.
    #[verifier::when_used_as_spec(spec_epoch_number)]
    pub fn epoch_number(&self) -> (epoch_number: u64)
        ensures
            epoch_number == self.spec_epoch_number(),
            epoch_number > 1,
            self.spec_config().epoch_number() == Ok::<u64, VerifyError>(epoch_number),
    {
        proof {
            use_type_invariant(self);
        }
        self.epoch_number
    }

    /// Finishes the verification. Must provide the information about the epoch the
    /// block belongs to, and what the cryptographic primitives say about the slot
    /// claim of the block for that information.
    ///
    /// Fails if the slot of the block is not later than that of its parent, or if
    /// the slot claim is invalid.
    pub fn finish(
        self,
        epoch_info: &EpochInformation,
        evidence: &ClaimEvidence,
    ) -> (result: Result<VerifySuccess, VerifyError>)
        ensures
            verify_result_is(
                result,
                self.spec_config().outcome(epoch_info@.authorities.len(), *evidence),
            ),
            result matches Ok(success) ==> announces_iff_epoch_differs(
                self.spec_config(),
                success@,
            ) && slot_after_parent(self.spec_config(), success@),
            result matches Err(error) ==> error is SlotNumberNotIncreasing || error is InvalidClaim,
            (parent_slot_number(self.spec_config().parent_block_header) matches Ok(
                Some(parent_slot),
            ) && self.spec_config().slot_number()->Ok_0 <= parent_slot) ==> result matches Err(
                VerifyError::SlotNumberNotIncreasing,
            ),
    {
        proof {
            use_type_invariant(&self);
        }
        verify_claimed_block(&self.config, epoch_info, evidence)
    }
}

/// What [`PendingVerify::finish`] returns is a function of the pending
/// verification, of what the epoch information holds and of the evidence: two
/// calls on copies of the same pending verification, with the same information
/// and evidence, both fail with the same error or both succeed with the same
/// slot number and the same announced epoch.
pub proof fn lemma_finish_idempotent(
    config: VerifyConfig,
    epoch_info: EpochInformation,
    evidence: ClaimEvidence,
    first: Result<VerifySuccess, VerifyError>,
    second: Result<VerifySuccess, VerifyError>,
)
    requires
        verify_result_is(first, config.outcome(epoch_info@.authorities.len(), evidence)),
        verify_result_is(second, config.outcome(epoch_info@.authorities.len(), evidence)),
    ensures
        first matches Ok(success) ==> second is Ok && second->Ok_0@ == success@,
        first matches Err(error) ==> second is Err && second->Err_0 == error,
{
}

} // verus!
