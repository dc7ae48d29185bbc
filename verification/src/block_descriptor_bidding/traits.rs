//! The simplified bidding world: bidders see a [`BlockDescriptor`] instead of
//! a full block.
use vstd::prelude::*;

use crate::timestamp::{is_representable, Timestamp};
use crate::u256::U256;

verus! {

/// Identifies a block handed to a bidder. The `u64` is what travels on RPC.
#[derive(Clone, Copy, Debug, PartialEq, Eq, Structural)]
pub struct BlockId(pub u64);

/// Selected information about a block built by the builders.
#[derive(Clone, Copy, Debug, PartialEq, Eq)]
pub struct BlockDescriptor {
    true_block_value: U256,
    can_add_payout_tx: bool,
    id: BlockId,
    /// For metrics.
    creation_time: Timestamp,
}

impl BlockDescriptor {
    pub closed spec fn spec_true_block_value(&self) -> U256 {
        self.true_block_value
    }

    pub closed spec fn spec_can_add_payout_tx(&self) -> bool {
        self.can_add_payout_tx
    }

    pub closed spec fn spec_id(&self) -> BlockId {
        self.id
    }

    pub closed spec fn spec_creation_time(&self) -> Timestamp {
        self.creation_time
    }

    /// A descriptor created now: its creation time is a clock reading, an
    /// instant `time` can represent.
    pub fn new(true_block_value: U256, can_add_payout_tx: bool, id: BlockId) -> (r: Self)
        ensures
            is_representable(r.spec_creation_time()),
            r.spec_true_block_value() == true_block_value,
            r.spec_can_add_payout_tx() == can_add_payout_tx,
            r.spec_id() == id,
    {
        BlockDescriptor {
            true_block_value,
            can_add_payout_tx,
            id,
            creation_time: Timestamp::now_utc(),
        }
    }

    /// A descriptor with a given creation time (as read back from RPC).
    pub fn new_for_deserialization(
        true_block_value: U256,
        can_add_payout_tx: bool,
        id: BlockId,
        creation_time: Timestamp,
    ) -> (r: Self)
        ensures
            r.spec_true_block_value() == true_block_value,
            r.spec_can_add_payout_tx() == can_add_payout_tx,
            r.spec_id() == id,
            r.spec_creation_time() == creation_time,
    {
        BlockDescriptor { true_block_value, can_add_payout_tx, id, creation_time }
    }

    pub fn true_block_value(&self) -> (r: U256)
        ensures
            r == self.spec_true_block_value(),
    {
        self.true_block_value
    }

    pub fn can_add_payout_tx(&self) -> (r: bool)
        ensures
            r == self.spec_can_add_payout_tx(),
    {
        self.can_add_payout_tx
    }

    pub fn id(&self) -> (r: &BlockId)
        ensures
            *r == self.spec_id(),
    {
        &self.id
    }

    pub fn creation_time(&self) -> (r: Timestamp)
        ensures
            r == self.spec_creation_time(),
    {
        self.creation_time
    }
}

/// A bid on one of the blocks a bidder was shown.
#[derive(Clone, Copy, Debug, PartialEq, Eq)]
pub struct Bid {
    pub block_id: BlockId,
    pub payout_tx_value: Option<U256>,
    pub seen_competition_bid: Option<U256>,
    /// When this bid reacts to some event (eg: new block, new competition bid)
    /// this is the creation time of that event, to measure the reaction time.
    pub trigger_creation_time: Option<Timestamp>,
}

/// Receives the bids of a slot bidder.
pub trait BidMaker: std::fmt::Debug {
    fn send_bid(&self, bid: Bid);
}

/// Receives the blocks built for a slot.
pub trait UnfinishedBlockBuildingSink: std::fmt::Debug + Send + Sync {
    fn new_block(&self, block_descriptor: BlockDescriptor);

    fn can_use_suggested_fee_recipient_as_coinbase(&self) -> bool;
}

/// Receives the best competition bid seen on the relays.
pub trait BidValueObs {
    fn update_new_bid(&self, bid: U256);
}

/// A bidder for one slot: it sees the blocks built and the competition bids.
pub trait SlotBidder: UnfinishedBlockBuildingSink + BidValueObs {

}

} // verus!
