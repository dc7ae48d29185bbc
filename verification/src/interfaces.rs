//! Values that the builder hands to the bidding side and gets back.
use vstd::prelude::*;

use crate::timestamp::Timestamp;
use crate::u256::U256;

verus! {

/// Information about an on-chain block.
#[derive(Debug, Clone, Copy, PartialEq, Eq)]
pub struct LandedBlockInfo {
    pub block_number: u64,
    pub block_timestamp: Timestamp,
    pub builder_balance: U256,
    /// true: we landed this block.
    pub beneficiary_is_builder: bool,
}

/// Identifies the slot a bidder works on.
#[derive(Debug, Clone, Copy, PartialEq, Eq, Structural)]
pub struct SlotBlockId {
    pub slot: u64,
    pub block: u64,
}

/// Id of a block built for a slot.
#[derive(Debug, Clone, Copy, PartialEq, Eq, Structural)]
pub struct BuiltBlockId(pub u64);

/// What a slot bidder is told about a block built for its slot.
#[derive(Debug, Clone, Copy)]
pub struct BuiltBlockDescriptorForSlotBidder {
    pub true_block_value: U256,
    pub id: BuiltBlockId,
    pub creation_time: Timestamp,
}

/// A bid of the slot bidder: seal the block `block_id` with this payout.
#[derive(Debug, Clone, Copy)]
pub struct SlotBidderSealBidCommand {
    pub block_id: BuiltBlockId,
    pub payout_tx_value: U256,
    pub seen_competition_bid: Option<U256>,
    /// Creation time of the event this bid reacts to.
    pub trigger_creation_time: Option<Timestamp>,
}

} // verus!
