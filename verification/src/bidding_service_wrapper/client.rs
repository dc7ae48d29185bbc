//! What the bidding service client decides: session ids, the messages it
//! sends, and what it does with the callbacks of a slot bidder.
use vstd::prelude::*;

use super::conversion::{fits_u256, is_rpc_landed_block_info, real2rpc_landed_block_info};
use super::messages::{
    Callback, CreateSlotBidderParams, DestroySlotBidderParams, LandedBlockInfo as RPCLandedBlockInfo,
    LandedBlocksParams, MustWinBlockParams, NewBlockParams, UpdateNewBidParams,
};
use crate::interfaces::{
    BuiltBlockDescriptorForSlotBidder, BuiltBlockId, LandedBlockInfo as RealLandedBlockInfo,
    SlotBidderSealBidCommand, SlotBlockId,
};
use crate::timestamp::{is_representable, Timestamp};
use crate::u256::{limb_or_zero, limbs_value, U256};

verus! {

/// Generates the session ids that tie the calls of one slot bidder together:
/// 0, 1, 2, ... (wrapping around after `u64::MAX`).
#[derive(Debug)]
pub struct SessionIdGenerator {
    last_session_id: u64,
}

impl SessionIdGenerator {
    /// The id the next call hands out.
    pub closed spec fn next_id(&self) -> u64 {
        self.last_session_id
    }

    pub fn new() -> (r: Self)
        ensures
            r.next_id() == 0,
    {
        SessionIdGenerator { last_session_id: 0 }
    }

    /// A new session id.
    pub fn new_session_id(&mut self) -> (id: u64)
        ensures
            id == old(self).next_id(),
            final(self).next_id() == (old(self).next_id() + 1) % 0x1_0000_0000_0000_0000,
    {
        let id = self.last_session_id;
        self.last_session_id = self.last_session_id.wrapping_add(1);
        id
    }
}

/// Ids handed out by successive calls are distinct until the counter wraps:
/// starting from `start`, the k-th call (from 0) hands out `start + k` modulo 2^64.
pub open spec fn nth_session_id(start: u64, k: nat) -> u64 {
    ((start + k) % 0x1_0000_0000_0000_0000) as u64
}

/// Two of fewer than 2^64 successive session ids are distinct.
pub proof fn lemma_session_ids_distinct(start: u64, j: nat, k: nat)
    requires
        j < k < 0x1_0000_0000_0000_0000,
    ensures
        nth_session_id(start, j) != nth_session_id(start, k),
{
}

/// The id a generator that started at `start` hands out after `k` calls of
/// `new_session_id`: each call moves it on by one, wrapping around after
/// `u64::MAX`.
pub open spec fn next_id_after_calls(start: u64, k: nat) -> u64
    decreases k,
{
    if k == 0 {
        start
    } else {
        ((next_id_after_calls(start, (k - 1) as nat) + 1) % 0x1_0000_0000_0000_0000) as u64
    }
}

/// After `k` calls, a generator that started at `start` hands out
/// `start + k` modulo 2^64; a generator made by `new` hands out `k` on its
/// `k`-th call (from 0) while `k < 2^64`, so each slot bidder of an adapter
/// gets the number of slot bidders created before it.
pub proof fn lemma_session_id_after_calls(start: u64, k: nat)
    ensures
        next_id_after_calls(start, k) == nth_session_id(start, k),
        k < 0x1_0000_0000_0000_0000 ==> next_id_after_calls(0, k) == k,
    decreases k,
{
    if k > 0 {
        lemma_session_id_after_calls(start, (k - 1) as nat);
        lemma_session_id_after_calls(0, (k - 1) as nat);
        let m: int = 0x1_0000_0000_0000_0000;
        vstd::arithmetic::div_mod::lemma_add_mod_noop(start + k - 1, 1, m);
        vstd::arithmetic::div_mod::lemma_small_mod(1, m as nat);
    }
}

/// An optional 256-bit value sent as limbs: empty means none.
pub fn parse_option_u256(limbs: Vec<u64>) -> (r: Option<U256>)
    requires
        fits_u256(limbs@),
    ensures
        r is None <==> limbs@.len() == 0,
        r matches Some(v) ==> v@ == limbs_value(limbs@) && forall|i: int|
            0 <= i < 4 ==> v.limbs@[i] == limb_or_zero(limbs@, i),
{
    if limbs.len() == 0 {
        None
    } else {
        Some(U256::from_limbs_slice(limbs.as_slice()))
    }
}

/// Whether `v` is what `limbs` stand for as an optional value.
pub open spec fn is_option_u256(limbs: Seq<u64>, v: Option<U256>) -> bool {
    match v {
        None => limbs.len() == 0,
        Some(x) => limbs.len() != 0 && x@ == limbs_value(limbs) && forall|i: int|
            0 <= i < 4 ==> x.limbs@[i] == limb_or_zero(limbs, i),
    }
}

/// What the stream of callbacks of a slot bidder gave.
#[derive(Debug)]
pub enum CallbackEvent {
    Received(Callback),
    /// The stream reported an error.
    Failed,
    /// The stream ended.
    Ended,
}

/// What the client does with a callback.
#[derive(Debug)]
pub enum CallbackAction {
    /// Stop listening to this slot bidder.
    Stop,
    /// Nothing to do (no bid, or a bid without payout value).
    Ignore,
    /// Seal a block with this bid.
    Seal(SlotBidderSealBidCommand),
}

/// The limbs of a callback's bid fit 256 bits.
pub open spec fn callback_fits(event: CallbackEvent) -> bool {
    match event {
        CallbackEvent::Received(callback) => match callback.bid {
            Some(bid) => fits_u256(bid.payout_tx_value@) && fits_u256(bid.seen_competition_bid@),
            None => true,
        },
        _ => true,
    }
}

/// Handles a callback of a slot bidder: a failed or ended stream stops the
/// listening; a callback without bid, or a bid without payout value, is
/// ignored; a bid becomes a seal command for the block it names.
pub fn callback_action(event: CallbackEvent) -> (r: CallbackAction)
    requires
        callback_fits(event),
    ensures
        match event {
            CallbackEvent::Failed | CallbackEvent::Ended => r is Stop,
            CallbackEvent::Received(callback) => match callback.bid {
                None => r is Ignore,
                Some(bid) => if bid.payout_tx_value@.len() == 0 {
                    r is Ignore
                } else {
                    r matches CallbackAction::Seal(command) && {
                        &&& command.block_id == BuiltBlockId(bid.block_id)
                        &&& is_option_u256(bid.payout_tx_value@, Some(command.payout_tx_value))
                        &&& is_option_u256(bid.seen_competition_bid@, command.seen_competition_bid)
                        &&& match bid.trigger_creation_time_us {
                            None => command.trigger_creation_time is None,
                            Some(us) => command.trigger_creation_time matches Some(t)
                                && t.spec_unix_timestamp_nanos() == us * 1000,
                        }
                    }
                },
            },
        },
{
    match event {
        CallbackEvent::Received(callback) => {
            match callback.bid {
                Some(bid) => {
                    let payout_tx_value = parse_option_u256(bid.payout_tx_value);
                    let seen_competition_bid = parse_option_u256(bid.seen_competition_bid);
                    let trigger_creation_time = match bid.trigger_creation_time_us {
                        Some(us) => Some(Timestamp::from_timestamp_us(us)),
                        None => None,
                    };
                    match payout_tx_value {
                        Some(payout_tx_value) => CallbackAction::Seal(
                            SlotBidderSealBidCommand {
                                block_id: BuiltBlockId(bid.block_id),
                                payout_tx_value,
                                seen_competition_bid,
                                trigger_creation_time,
                            },
                        ),
                        None => CallbackAction::Ignore,
                    }
                },
                None => CallbackAction::Ignore,
            }
        },
        CallbackEvent::Failed | CallbackEvent::Ended => CallbackAction::Stop,
    }
}

/// The request creating the slot bidder of `slot_block_id` under `session_id`;
/// the slot timestamp is sent in whole seconds.
pub fn create_slot_bidder_params(
    slot_block_id: SlotBlockId,
    slot_timestamp: &Timestamp,
    session_id: u64,
) -> (r: CreateSlotBidderParams)
    ensures
        r.block == slot_block_id.block,
        r.slot == slot_block_id.slot,
        r.session_id == session_id,
        r.slot_timestamp == slot_timestamp.spec_unix_timestamp(),
{
    CreateSlotBidderParams {
        block: slot_block_id.block,
        slot: slot_block_id.slot,
        session_id,
        slot_timestamp: slot_timestamp.unix_timestamp(),
    }
}

/// The request destroying the slot bidder of `session_id`.
pub fn destroy_slot_bidder_params(session_id: u64) -> (r: DestroySlotBidderParams)
    ensures
        r.session_id == session_id,
{
    DestroySlotBidderParams { session_id }
}

/// The request asking the bidding service to win `block`.
pub fn must_win_block_params(block: u64) -> (r: MustWinBlockParams)
    ensures
        r.block == block,
{
    MustWinBlockParams { block }
}

/// The message carrying `landed_blocks`, in order.
pub fn landed_blocks_params(landed_blocks: &[RealLandedBlockInfo]) -> (r: LandedBlocksParams)
    ensures
        r.landed_block_info@.len() == landed_blocks@.len(),
        forall|i: int|
            0 <= i < landed_blocks@.len() ==> is_rpc_landed_block_info(
                landed_blocks@[i],
                #[trigger] r.landed_block_info@[i],
            ),
{
    let mut landed_block_info: Vec<RPCLandedBlockInfo> = Vec::new();
    let mut i: usize = 0;
    while i < landed_blocks.len()
        invariant
            0 <= i <= landed_blocks@.len(),
            landed_block_info@.len() == i,
            forall|j: int|
                0 <= j < i ==> is_rpc_landed_block_info(
                    landed_blocks@[j],
                    #[trigger] landed_block_info@[j],
                ),
        decreases landed_blocks@.len() - i,
    {
        landed_block_info.push(real2rpc_landed_block_info(&landed_blocks[i]));
        i = i + 1;
    }
    LandedBlocksParams { landed_block_info }
}

/// The message telling the bidder of `session_id` about a new block, stamped
/// with the time it is sent (a clock reading, in microseconds). Blocks sent this way can always take a payout tx.
pub fn new_block_params(session_id: u64, block_descriptor: &BuiltBlockDescriptorForSlotBidder) -> (r:
    NewBlockParams)
    ensures
        r.session_id == session_id,
        r.true_block_value@ == block_descriptor.true_block_value.limbs@,
        r.can_add_payout_tx,
        r.block_id == block_descriptor.id.0,
        r.creation_time_us == block_descriptor.creation_time.spec_timestamp_us(),
        exists|now: Timestamp|
            is_representable(now) && r.protocol_send_time_us == #[trigger] now.spec_timestamp_us(),
{
    let now = Timestamp::now_utc();
    new_block_params_sent_at(session_id, block_descriptor, &now)
}

/// The message telling the bidder of `session_id` about a new block, sent at
/// `send_time`. Blocks sent this way can always take a payout tx.
pub fn new_block_params_sent_at(
    session_id: u64,
    block_descriptor: &BuiltBlockDescriptorForSlotBidder,
    send_time: &Timestamp,
) -> (r: NewBlockParams)
    ensures
        r.session_id == session_id,
        r.true_block_value@ == block_descriptor.true_block_value.limbs@,
        r.can_add_payout_tx,
        r.block_id == block_descriptor.id.0,
        r.creation_time_us == block_descriptor.creation_time.spec_timestamp_us(),
        r.protocol_send_time_us == send_time.spec_timestamp_us(),
{
    NewBlockParams {
        session_id,
        true_block_value: block_descriptor.true_block_value.as_limbs_vec(),
        can_add_payout_tx: true,
        block_id: block_descriptor.id.0,
        creation_time_us: block_descriptor.creation_time.to_timestamp_us(),
        protocol_send_time_us: send_time.to_timestamp_us(),
    }
}

/// The message telling the bidder of `session_id` about a new competition
/// bid created at `creation_time`.
pub fn update_new_bid_params(session_id: u64, bid: &U256, creation_time: &Timestamp) -> (r:
    UpdateNewBidParams)
    ensures
        r.session_id == session_id,
        r.bid@ == bid.limbs@,
        r.creation_time_us == creation_time.spec_timestamp_us(),
{
    UpdateNewBidParams {
        session_id,
        bid: bid.as_limbs_vec(),
        creation_time_us: creation_time.to_timestamp_us(),
    }
}

} // verus!
