//! Chain-wide BABE parameters, fixed by the genesis block.

use super::EpochInformation;
use vstd::prelude::*;

verus! {

/// BABE configuration of a chain, as found in its genesis block.
#[derive(Debug)]
pub struct BabeGenesisConfiguration {
    slots_per_epoch: u64,
    epoch0_information: EpochInformation,
}

impl BabeGenesisConfiguration {
    #[verifier::type_invariant]
    spec fn well_formed(self) -> bool {
        self.slots_per_epoch > 0
    }

    /// Number of slots of an epoch.
    pub closed spec fn spec_slots_per_epoch(&self) -> u64 {
        self.slots_per_epoch
    }

    /// Authorities and randomness of epochs 0 and 1.
    pub closed spec fn spec_epoch0_information(&self) -> EpochInformation {
        self.epoch0_information
    }

    /// Builds the configuration of a chain whose epochs last `slots_per_epoch`
    /// slots. An epoch holds at least one slot: there is no configuration with
    /// `slots_per_epoch == 0`.
    pub fn new(
        slots_per_epoch: u64,
        epoch0_information: EpochInformation,
    ) -> (config: Option<Self>)
        ensures
            slots_per_epoch == 0 <==> config is None,
            config matches Some(c) ==> c.spec_slots_per_epoch() == slots_per_epoch
                && c.spec_epoch0_information() == epoch0_information,
    {
        if slots_per_epoch == 0 {
            None
        } else {
            Some(BabeGenesisConfiguration { slots_per_epoch, epoch0_information })
        }
    }

    /// Number of slots of an epoch. Never zero.
    #[verifier::when_used_as_spec(spec_slots_per_epoch)]
    pub fn slots_per_epoch(&self) -> (slots: u64)
        ensures
            slots > 0,
            slots == self.spec_slots_per_epoch(),
    {
        proof {
            use_type_invariant(self);
        }
        self.slots_per_epoch
    }

    /// Authorities and randomness of epochs 0 and 1.
    pub fn epoch0_information(&self) -> (information: &EpochInformation)
        ensures
            *information == self.spec_epoch0_information(),
    {
        &self.epoch0_information
    }
}

} // verus!
