//! What a sink wrapped for true-block-value pushing records when a block is
//! built for its slot.
use vstd::prelude::*;

use super::best_true_value_pusher::{after_update, BestTrueValue, BestTrueValueCell};
use crate::timestamp::{is_representable, trunc_div, Timestamp};
use crate::u256::U256;

verus! {

/// The slot timestamp a wrapped sink records: the slot's Unix timestamp in
/// seconds, cast to `u64` (instants before the epoch wrap around).
pub fn slot_end_timestamp(slot_timestamp: &Timestamp) -> (r: u64)
    ensures
        r == (slot_timestamp.spec_unix_timestamp() as u64),
{
    slot_timestamp.unix_timestamp() as u64
}

/// A block with true value `true_block_value` was built for the slot: the cell
/// is offered a value for this block and slot, stamped with the current time
/// in milliseconds (the clock reads an instant `time` can represent), whose
/// relay value is the best competition bid seen (zero when none was
/// seen).
pub fn record_new_block(
    cell: &mut BestTrueValueCell,
    block_number: u64,
    slot_number: u64,
    slot_timestamp: u64,
    true_block_value: U256,
    best_bid_value: Option<U256>,
)
    ensures
        exists|now: Timestamp, offered: BestTrueValue|
            {
                &&& is_representable(now)
                &&& offered.timestamp_ms == (trunc_div(now.spec_unix_timestamp_nanos(), 1_000_000) as u64)
                &&& offered.block_number == block_number
                &&& offered.slot_number == slot_number
                &&& offered.best_true_value == true_block_value
                &&& offered.best_relay_value@ == match best_bid_value {
                    Some(v) => v@,
                    None => 0,
                }
                &&& offered.builder@ == "tmp"@
                &&& offered.slot_end_timestamp == slot_timestamp
                &&& final(cell)@ == after_update(old(cell)@, offered)
            },
{
    let now = Timestamp::now_utc();
    record_new_block_at(
        cell,
        block_number,
        slot_number,
        slot_timestamp,
        true_block_value,
        best_bid_value,
        &now,
    );
    assert(exists|offered: BestTrueValue|
        {
            &&& offered.timestamp_ms == (trunc_div(now.spec_unix_timestamp_nanos(), 1_000_000) as u64)
            &&& offered.block_number == block_number
            &&& offered.slot_number == slot_number
            &&& offered.best_true_value == true_block_value
            &&& offered.best_relay_value@ == match best_bid_value {
                Some(v) => v@,
                None => 0,
            }
            &&& offered.builder@ == "tmp"@
            &&& offered.slot_end_timestamp == slot_timestamp
            &&& final(cell)@ == after_update(old(cell)@, offered)
        });
}

/// A block with true value `true_block_value` was built for the slot at the
/// instant `now`: the cell is offered a value for this block and slot, stamped
/// with `now` in milliseconds, whose relay value is the best competition bid
/// seen (zero when none was seen).
pub fn record_new_block_at(
    cell: &mut BestTrueValueCell,
    block_number: u64,
    slot_number: u64,
    slot_timestamp: u64,
    true_block_value: U256,
    best_bid_value: Option<U256>,
    now: &Timestamp,
)
    ensures
        exists|offered: BestTrueValue|
            {
                &&& offered.timestamp_ms == (trunc_div(now.spec_unix_timestamp_nanos(), 1_000_000) as u64)
                &&& offered.block_number == block_number
                &&& offered.slot_number == slot_number
                &&& offered.best_true_value == true_block_value
                &&& offered.best_relay_value@ == match best_bid_value {
                    Some(v) => v@,
                    None => 0,
                }
                &&& offered.builder@ == "tmp"@
                &&& offered.slot_end_timestamp == slot_timestamp
                &&& final(cell)@ == after_update(old(cell)@, offered)
            },
{
    let best_relay_value = match best_bid_value {
        Some(v) => v,
        None => U256::zero(),
    };
    let best_true_value = BestTrueValue::new_at(
        block_number,
        slot_number,
        true_block_value,
        best_relay_value,
        slot_timestamp,
        now,
    );
    cell.update_value_safe(best_true_value);
}

} // verus!
