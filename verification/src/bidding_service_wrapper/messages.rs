//! Messages of the bidding service protocol. 256-bit values travel as
//! vectors of four little-endian `u64` limbs; an empty vector stands for "none"
//! where a value is optional.
use vstd::prelude::*;

verus! {

/// Version of the bidding service.
#[derive(Clone, PartialEq, Debug, Default)]
pub struct BidderVersionInfo {
    pub git_commit: String,
    pub git_ref: String,
    pub build_time_utc: String,
}

#[derive(Clone, PartialEq, Debug, Default)]
pub struct Empty {}

#[derive(Clone, PartialEq, Debug, Default)]
pub struct MustWinBlockParams {
    pub block: u64,
}

#[derive(Clone, PartialEq, Debug, Default)]
pub struct UpdateNewBidParams {
    pub session_id: u64,
    /// Array of 4 uint64
    pub bid: Vec<u64>,
    pub creation_time_us: u64,
}

#[derive(Clone, PartialEq, Debug, Default)]
pub struct NewBlockParams {
    pub session_id: u64,
    /// Array of 4 uint64
    pub true_block_value: Vec<u64>,
    pub can_add_payout_tx: bool,
    pub block_id: u64,
    pub creation_time_us: u64,
    /// When the client sent the message, to measure how long it travelled.
    pub protocol_send_time_us: u64,
}

#[derive(Clone, PartialEq, Debug, Default)]
pub struct DestroySlotBidderParams {
    pub session_id: u64,
}

#[derive(Clone, PartialEq, Debug, Default)]
pub struct CreateSlotBidderParams {
    pub block: u64,
    pub slot: u64,
    /// Id identifying the session. Used in all following calls.
    pub session_id: u64,
    /// unix ts
    pub slot_timestamp: i64,
}

/// Info about an on-chain block.
#[derive(Clone, PartialEq, Debug, Default)]
pub struct LandedBlockInfo {
    pub block_number: u64,
    pub block_timestamp: i64,
    /// Array of 4 uint64
    pub builder_balance: Vec<u64>,
    /// true: we landed this block.
    pub beneficiary_is_builder: bool,
}

#[derive(Clone, PartialEq, Debug, Default)]
pub struct LandedBlocksParams {
    pub landed_block_info: Vec<LandedBlockInfo>,
}

#[derive(Clone, PartialEq, Debug, Default)]
pub struct Bid {
    /// Optional implicitly by allowing empty. Array of 4 uint64
    pub payout_tx_value: Vec<u64>,
    pub block_id: u64,
    /// Optional implicitly by allowing empty. Array of 4 uint64
    pub seen_competition_bid: Vec<u64>,
    pub trigger_creation_time_us: Option<u64>,
}

/// Exactly one member is set.
#[derive(Clone, PartialEq, Debug, Default)]
pub struct Callback {
    pub bid: Option<Bid>,
    pub can_use_suggested_fee_recipient_as_coinbase_change: Option<bool>,
}

} // verus!
