//! What the adapters between the full bidding world and the simplified one
//! decide: which id a new block gets, what the bidder is shown, and which full
//! bid a simplified bid stands for.
use vstd::prelude::*;

use super::block_registry::{BlockRegistry, RegistryView};
use super::traits::{Bid, BlockDescriptor};
use crate::u256::U256;

verus! {

/// Blocks kept per slot bidder. A block must not be forgotten between the
/// moment the bidder sees it and the moment it bids on it. A bid over RPC
/// takes at most .5ms; assuming 10 blocks per .5ms and 5 building algorithms,
/// 50 would do; 100 is kept to play it safe.
pub const MAX_ACTIVE_BLOCKS: usize = 100;

/// The registry a new slot bidder gets: empty, keeping [`MAX_ACTIVE_BLOCKS`].
pub fn new_slot_block_registry<B>() -> (r: BlockRegistry<B>)
    ensures
        r.wf(),
        r@ == RegistryView::<B>::empty(MAX_ACTIVE_BLOCKS as nat),
{
    BlockRegistry::new(MAX_ACTIVE_BLOCKS)
}

/// A new block built for the slot: it is registered and the bidder is shown a
/// descriptor with its true block value, whether a payout tx can be added and
/// its fresh id.
pub fn describe_new_block<B>(
    registry: &mut BlockRegistry<B>,
    block: B,
    true_block_value: U256,
    can_add_payout_tx: bool,
) -> (r: BlockDescriptor)
    requires
        old(registry)@.last < u64::MAX,
        old(registry)@.first < u64::MAX,
    ensures
        final(registry).wf(),
        final(registry)@ == old(registry)@.add(block),
        r.spec_id().0 == final(registry)@.last,
        r.spec_true_block_value() == true_block_value,
        r.spec_can_add_payout_tx() == can_add_payout_tx,
{
    let block_id = registry.add_block(block);
    BlockDescriptor::new(true_block_value, can_add_payout_tx, block_id)
}

/// A bid on a full block, as the full bidding world takes it.
#[derive(Debug)]
pub struct FullBid<B> {
    pub block: B,
    pub payout_tx_value: Option<U256>,
    pub seen_competition_bid: Option<U256>,
}

/// The full bid that `bid` stands for: the block it names, if the registry
/// still holds it (`None` is a bid on a lost block), with the same payout and
/// competition values.
pub fn full_bid_for<B: Clone>(registry: &BlockRegistry<B>, bid: &Bid) -> (r: Option<FullBid<B>>)
    ensures
        r is Some <==> registry@.contains(bid.block_id.0 as int),
        r matches Some(full) ==> {
            &&& cloned(registry@.block(bid.block_id.0 as int), full.block)
            &&& full.payout_tx_value == bid.payout_tx_value
            &&& full.seen_competition_bid == bid.seen_competition_bid
        },
{
    match registry.get_block_clon(bid.block_id) {
        Some(block) => Some(
            FullBid {
                block,
                payout_tx_value: bid.payout_tx_value,
                seen_competition_bid: bid.seen_competition_bid,
            },
        ),
        None => None,
    }
}

} // verus!
