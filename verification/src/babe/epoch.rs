//! Epoch arithmetic: which epoch a slot belongs to.
//!
//! With `n` slots per epoch and block #1 in slot `b`, slot `s` belongs to epoch
//! `(s - b + 1) / n`, rounded down. Epoch 0 therefore holds the `n - 1` slots from
//! `b` on, and every later epoch holds `n` slots.

use super::chain_config::BabeGenesisConfiguration;
use vstd::prelude::*;

verus! {

/// Why a slot number could not be turned into an epoch number.
#[derive(Debug, Clone, Copy, PartialEq, Eq, Structural)]
pub enum ArithmeticError {
    /// The slot lies before the slot of block #1.
    Underflow,
    /// The number of slots since block #1 does not fit in 64 bits.
    Overflow,
}

/// The epoch of `slot_number` on a chain whose block #1 sits in slot
/// `block1_slot_number` and whose epochs last `slots_per_epoch` slots.
pub open spec fn epoch_of_slot(
    slot_number: u64,
    slots_per_epoch: u64,
    block1_slot_number: u64,
) -> Result<u64, ArithmeticError> {
    if slot_number < block1_slot_number {
        Err(ArithmeticError::Underflow)
    } else if slot_number - block1_slot_number + 1 > u64::MAX {
        Err(ArithmeticError::Overflow)
    } else {
        Ok(((slot_number - block1_slot_number + 1) / (slots_per_epoch as int)) as u64)
    }
}

/// Turns a slot number into an epoch number.
///
/// Fails if `slot_number` is inferior to `block1_slot_number`, or if the number of
/// slots from block #1 up to and including `slot_number` does not fit in 64 bits.
pub fn slot_number_to_epoch(
    slot_number: u64,
    genesis_config: &BabeGenesisConfiguration,
    block1_slot_number: u64,
) -> (epoch: Result<u64, ArithmeticError>)
    ensures
        epoch == epoch_of_slot(
            slot_number,
            genesis_config.spec_slots_per_epoch(),
            block1_slot_number,
        ),
        slot_number < block1_slot_number ==> epoch == Err::<u64, ArithmeticError>(
            ArithmeticError::Underflow,
        ),
{
    let slots_diff: u64 = match slot_number.checked_sub(block1_slot_number) {
        Some(diff) => diff,
        None => return Err(ArithmeticError::Underflow),
    };
    let slots_count: u64 = match slots_diff.checked_add(1) {
        Some(count) => count,
        None => return Err(ArithmeticError::Overflow),
    };
    Ok(slots_count / genesis_config.slots_per_epoch())
}

/// The epoch number does not decrease with the slot number: of two slots at or
/// after block #1 that both have an epoch, the later one lies in the same or in a
/// later epoch. Whenever the later slot has an epoch, so has the earlier one.
pub proof fn lemma_epoch_non_decreasing(
    earlier: u64,
    later: u64,
    slots_per_epoch: u64,
    block1_slot_number: u64,
)
    requires
        slots_per_epoch > 0,
        block1_slot_number <= earlier <= later,
        later - block1_slot_number < u64::MAX,
    ensures
        epoch_of_slot(earlier, slots_per_epoch, block1_slot_number) is Ok,
        epoch_of_slot(later, slots_per_epoch, block1_slot_number) is Ok,
        epoch_of_slot(earlier, slots_per_epoch, block1_slot_number)->Ok_0 <= epoch_of_slot(
            later,
            slots_per_epoch,
            block1_slot_number,
        )->Ok_0,
{
    let a: int = earlier - block1_slot_number + 1;
    let b: int = later - block1_slot_number + 1;
    let n: int = slots_per_epoch as int;
    assert(0 <= a / n <= b / n <= b) by (nonlinear_arith)
        requires
            0 < a <= b,
            n > 0,
    ;
}

/// A slot before the slot of block #1 has no epoch.
pub proof fn lemma_epoch_before_block1(slot_number: u64, slots_per_epoch: u64, block1_slot_number: u64)
    requires
        slot_number < block1_slot_number,
    ensures
        epoch_of_slot(slot_number, slots_per_epoch, block1_slot_number) == Err::<
            u64,
            ArithmeticError,
        >(ArithmeticError::Underflow),
{
}

} // verus!
