//! Selection of the best block among candidates.
//!
//! The best block is the one with the highest slot number. Of two blocks of the
//! same slot, the best is the one with the most primary slot claims on the chain
//! that leads to it. Which of two blocks that draw on both counts is built upon is
//! up to the node.

use crate::header::PreDigest;
use vstd::prelude::*;

verus! {

/// What chain selection reads of one block.
#[derive(Debug, Clone, Copy, PartialEq, Eq, Structural)]
pub struct ChainBlock {
    /// Slot that the block claims.
    pub slot_number: u64,
    /// Whether the slot claim of the block is a primary one.
    pub primary: bool,
}

impl ChainBlock {
    /// What chain selection reads of a block with the slot claim `claim`.
    pub fn from_claim(claim: &PreDigest) -> (block: ChainBlock)
        ensures
            block.slot_number == claim.spec_slot_number(),
            block.primary == claim.spec_is_primary(),
    {
        ChainBlock { slot_number: claim.slot_number(), primary: claim.is_primary() }
    }
}

/// A block that may be the best block of the chain.
#[derive(Debug, Clone, Copy, PartialEq, Eq, Structural)]
pub struct BestBlockCandidate {
    /// Slot that the block claims.
    pub slot_number: u64,
    /// Number of blocks with a primary slot claim on the chain that ends with the
    /// block, counted from a block that all candidates descend from.
    pub primary_claims: u64,
}

/// Which of two candidates is the best block.
#[derive(Debug, Clone, Copy, PartialEq, Eq, Structural)]
pub enum Preference {
    /// The first candidate is.
    First,
    /// The second candidate is.
    Second,
    /// The candidates claim the same slot with as many primary claims behind them.
    Undecided,
}

/// Number of primary slot claims among `blocks`.
pub open spec fn primary_claims_in(blocks: Seq<ChainBlock>) -> nat
    decreases blocks.len(),
{
    if blocks.len() == 0 {
        0
    } else {
        primary_claims_in(blocks.drop_last()) + if blocks.last().primary {
            1nat
        } else {
            0nat
        }
    }
}

/// The candidate at the end of the chain `blocks`.
pub open spec fn candidate_at_end(blocks: Seq<ChainBlock>) -> BestBlockCandidate {
    BestBlockCandidate {
        slot_number: blocks.last().slot_number,
        primary_claims: primary_claims_in(blocks) as u64,
    }
}

/// `first` is a better block than `second`.
pub open spec fn outranks(first: BestBlockCandidate, second: BestBlockCandidate) -> bool {
    first.slot_number > second.slot_number || (first.slot_number == second.slot_number
        && first.primary_claims > second.primary_claims)
}

/// Which of `first` and `second` is the best block.
pub open spec fn preference(first: BestBlockCandidate, second: BestBlockCandidate) -> Preference {
    if outranks(first, second) {
        Preference::First
    } else if outranks(second, first) {
        Preference::Second
    } else {
        Preference::Undecided
    }
}

impl BestBlockCandidate {
    /// The candidate at the end of the chain `blocks`, given from an ancestor that
    /// all candidates share (and without it) down to the candidate itself. There is
    /// none at the end of an empty chain.
    pub fn from_ancestry(blocks: &[ChainBlock]) -> (candidate: Option<BestBlockCandidate>)
        ensures
            blocks@.len() == 0 <==> candidate is None,
            candidate matches Some(found) ==> found == candidate_at_end(blocks@)
                && found.primary_claims == primary_claims_in(blocks@),
    {
        let len: usize = blocks.len();
        if len == 0 {
            return None;
        }
        let mut primary_claims: u64 = 0;
        let mut k: usize = 0;
        while k < len
            invariant
                k <= len == blocks@.len(),
                primary_claims == primary_claims_in(blocks@.subrange(0, k as int)),
                primary_claims <= k,
            decreases len - k,
        {
            assert(blocks@.subrange(0, k + 1).drop_last() =~= blocks@.subrange(0, k as int));
            if blocks[k].primary {
                primary_claims += 1;
            }
            k += 1;
        }
        assert(blocks@.subrange(0, len as int) =~= blocks@);
        Some(BestBlockCandidate { slot_number: blocks[len - 1].slot_number, primary_claims })
    }
}

/// Tells which of two candidates that descend from a common block is the best
/// block: the one with the higher slot number, and of two with the same slot
/// number the one with more primary slot claims.
pub fn select_best_block(
    first: &BestBlockCandidate,
    second: &BestBlockCandidate,
) -> (choice: Preference)
    ensures
        choice == preference(*first, *second),
{
    if first.slot_number > second.slot_number {
        Preference::First
    } else if first.slot_number < second.slot_number {
        Preference::Second
    } else if first.primary_claims > second.primary_claims {
        Preference::First
    } else if first.primary_claims < second.primary_claims {
        Preference::Second
    } else {
        Preference::Undecided
    }
}

/// The selection does not depend on the order in which the candidates are given,
/// and is undecided only between candidates that draw on slot number and primary
/// claims.
pub proof fn lemma_preference_symmetric(first: BestBlockCandidate, second: BestBlockCandidate)
    ensures
        preference(first, second) is First <==> preference(second, first) is Second,
        preference(first, second) is Second <==> preference(second, first) is First,
        preference(first, second) is Undecided <==> first == second,
{
}

/// Being a better block is transitive, and no block is better than itself.
pub proof fn lemma_outranks_transitive(
    first: BestBlockCandidate,
    second: BestBlockCandidate,
    third: BestBlockCandidate,
)
    requires
        outranks(first, second),
        outranks(second, third),
    ensures
        outranks(first, third),
        !outranks(first, first),
{
}

/// Of two blocks with the same parent and the same slot, one with a primary and
/// one with a secondary slot claim, the one with the primary claim is the best.
pub proof fn lemma_primary_sibling_preferred(
    ancestry: Seq<ChainBlock>,
    primary: ChainBlock,
    secondary: ChainBlock,
)
    requires
        primary.primary,
        !secondary.primary,
        primary.slot_number == secondary.slot_number,
        ancestry.len() < u64::MAX,
    ensures
        preference(candidate_at_end(ancestry.push(primary)), candidate_at_end(ancestry.push(secondary)))
            is First,
{
    assert(ancestry.push(primary).drop_last() =~= ancestry);
    assert(ancestry.push(secondary).drop_last() =~= ancestry);
    lemma_primary_claims_bounded(ancestry);
}

/// A chain has at most as many primary slot claims as blocks.
pub proof fn lemma_primary_claims_bounded(blocks: Seq<ChainBlock>)
    ensures
        primary_claims_in(blocks) <= blocks.len(),
    decreases blocks.len(),
{
    if blocks.len() > 0 {
        lemma_primary_claims_bounded(blocks.drop_last());
    }
}

} // verus!
