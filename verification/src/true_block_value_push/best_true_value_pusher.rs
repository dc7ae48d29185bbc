//! The best true value bid kept locally, and the decisions of the task that
//! pushes it out.
use vstd::prelude::*;

use crate::timestamp::{is_representable, trunc_div, Timestamp};
use crate::u256::U256;

verus! {

/// What is pushed about our best block of a slot.
#[derive(Debug, Clone)]
pub struct BestTrueValue {
    pub timestamp_ms: u64,
    pub block_number: u64,
    pub slot_number: u64,
    /// Best true value of submitted block (has subtracted the payout tx cost).
    pub best_true_value: U256,
    /// Best bid seen on the relay at the moment of choosing the bid for our block.
    pub best_relay_value: U256,
    pub builder: String,
    pub slot_end_timestamp: u64,
}

/// The value a fresh cell holds: every number zero and no builder name.
pub open spec fn is_default_best_true_value(v: BestTrueValue) -> bool {
    &&& v.timestamp_ms == 0
    &&& v.block_number == 0
    &&& v.slot_number == 0
    &&& v.best_true_value@ == 0
    &&& v.best_relay_value@ == 0
    &&& v.builder@ == Seq::<char>::empty()
    &&& v.slot_end_timestamp == 0
}

impl BestTrueValue {
    /// Same block, slot, true value and relay value: what matters for bidding.
    pub open spec fn same_bid_info(self, other: BestTrueValue) -> bool {
        &&& self.block_number == other.block_number
        &&& self.slot_number == other.slot_number
        &&& self.best_true_value@ == other.best_true_value@
        &&& self.best_relay_value@ == other.best_relay_value@
    }

    /// A value stamped with the current time (in milliseconds since the
    /// epoch), under the builder name "tmp".
    pub fn new(
        block_number: u64,
        slot_number: u64,
        best_true_value: U256,
        best_relay_value: U256,
        slot_end_timestamp: u64,
    ) -> (r: Self)
        ensures
            exists|now: Timestamp|
                is_representable(now) && r.timestamp_ms == (trunc_div(
                    #[trigger] now.spec_unix_timestamp_nanos(),
                    1_000_000,
                ) as u64),
            r.block_number == block_number,
            r.slot_number == slot_number,
            r.best_true_value == best_true_value,
            r.best_relay_value == best_relay_value,
            r.builder@ == "tmp"@,
            r.slot_end_timestamp == slot_end_timestamp,
    {
        let now = Timestamp::now_utc();
        BestTrueValue::new_at(
            block_number,
            slot_number,
            best_true_value,
            best_relay_value,
            slot_end_timestamp,
            &now,
        )
    }

    /// A value stamped with the instant `now` (in milliseconds since the
    /// epoch), under the builder name "tmp".
    pub fn new_at(
        block_number: u64,
        slot_number: u64,
        best_true_value: U256,
        best_relay_value: U256,
        slot_end_timestamp: u64,
        now: &Timestamp,
    ) -> (r: Self)
        ensures
            r.timestamp_ms == (trunc_div(now.spec_unix_timestamp_nanos(), 1_000_000) as u64),
            r.block_number == block_number,
            r.slot_number == slot_number,
            r.best_true_value == best_true_value,
            r.best_relay_value == best_relay_value,
            r.builder@ == "tmp"@,
            r.slot_end_timestamp == slot_end_timestamp,
    {
        BestTrueValue {
            timestamp_ms: now.to_timestamp_ms(),
            block_number,
            slot_number,
            best_true_value,
            best_relay_value,
            builder: String::from_str("tmp"),
            slot_end_timestamp,
        }
    }

    /// Compares what is related to bidding: block_number, slot_number,
    /// best_true_value and best_relay_value.
    pub fn is_same_bid_info(&self, other: &Self) -> (r: bool)
        ensures
            r == self.same_bid_info(*other),
    {
        self.block_number == other.block_number && self.slot_number == other.slot_number
            && self.best_true_value.eq_value(&other.best_true_value)
            && self.best_relay_value.eq_value(&other.best_relay_value)
    }

    /// A copy of this value.
    pub fn duplicate(&self) -> (r: Self)
        ensures
            r == *self,
    {
        BestTrueValue {
            timestamp_ms: self.timestamp_ms,
            block_number: self.block_number,
            slot_number: self.slot_number,
            best_true_value: self.best_true_value,
            best_relay_value: self.best_relay_value,
            builder: self.builder.clone(),
            slot_end_timestamp: self.slot_end_timestamp,
        }
    }
}

impl Default for BestTrueValue {
    fn default() -> (r: Self)
        ensures
            is_default_best_true_value(r),
    {
        BestTrueValue {
            timestamp_ms: 0,
            block_number: 0,
            slot_number: 0,
            best_true_value: U256::zero(),
            best_relay_value: U256::zero(),
            builder: String::new(),
            slot_end_timestamp: 0,
        }
    }
}

/// Whether a cell holding `current` takes `value`: never a value for a past
/// slot, and, for the same slot and block, never a lower true value.
pub open spec fn accepts_update(current: BestTrueValue, value: BestTrueValue) -> bool {
    &&& !(value.slot_number < current.slot_number)
    &&& !(value.slot_number == current.slot_number && value.block_number == current.block_number
        && value.best_true_value@ < current.best_true_value@)
}

/// What a cell holding `current` holds after being offered `value`.
pub open spec fn after_update(current: BestTrueValue, value: BestTrueValue) -> BestTrueValue {
    if accepts_update(current, value) {
        value
    } else {
        current
    }
}

/// What a cell holding `current` holds after being offered `values` in order.
pub open spec fn after_updates(current: BestTrueValue, values: Seq<BestTrueValue>) -> BestTrueValue
    decreases values.len(),
{
    if values.len() == 0 {
        current
    } else {
        after_update(after_updates(current, values.drop_last()), values.last())
    }
}

/// The best local value, updated by the block building side and read by the
/// pushing task. The cell is a plain value: the two sides share one cell
/// behind a lock.
#[derive(Debug)]
pub struct BestTrueValueCell {
    data: BestTrueValue,
}

impl View for BestTrueValueCell {
    type V = BestTrueValue;

    closed spec fn view(&self) -> BestTrueValue {
        self.data
    }
}

impl Default for BestTrueValueCell {
    fn default() -> (r: Self)
        ensures
            is_default_best_true_value(r@),
    {
        BestTrueValueCell { data: BestTrueValue::default() }
    }
}

impl BestTrueValueCell {
    /// Offers `value` to the cell, which keeps it unless it is for a past slot
    /// or, for the same slot and block, has a lower true value.
    pub fn update_value_safe(&mut self, value: BestTrueValue)
        ensures
            final(self)@ == after_update(old(self)@, value),
    {
        if value.slot_number < self.data.slot_number {
            // don't update value for the past slot
            return ;
        }
        if value.slot_number == self.data.slot_number && value.block_number
            == self.data.block_number && value.best_true_value.lt(&self.data.best_true_value) {
            // don't update value if its lower
            return ;
        }
        self.data = value;
    }

    /// The value held.
    pub fn read(&self) -> (r: BestTrueValue)
        ensures
            r == self@,
    {
        self.data.duplicate()
    }
}

/// The cell never goes back to a past slot: after any sequence of offers it
/// holds the highest slot among the initial value and all offered values.
pub proof fn lemma_slot_is_max_offered(current: BestTrueValue, values: Seq<BestTrueValue>)
    ensures
        after_updates(current, values).slot_number >= current.slot_number,
        forall|i: int|
            0 <= i < values.len() ==> after_updates(current, values).slot_number
                >= #[trigger] values[i].slot_number,
        after_updates(current, values) == current || exists|i: int|
            0 <= i < values.len() && after_updates(current, values) == #[trigger] values[i],
    decreases values.len(),
{
    if values.len() > 0 {
        let prefix = values.drop_last();
        lemma_slot_is_max_offered(current, prefix);
        let before = after_updates(current, prefix);
        assert forall|i: int| 0 <= i < values.len() implies after_updates(current, values).slot_number
            >= #[trigger] values[i].slot_number by {
            if i < values.len() - 1 {
                assert(values[i] == prefix[i]);
            }
        }
        if after_updates(current, values) != current {
            if after_updates(current, values) == values.last() {
                assert(values[values.len() - 1] == values.last());
            } else {
                let j = choose|j: int| 0 <= j < prefix.len() && before == #[trigger] prefix[j];
                assert(values[j] == prefix[j]);
            }
        }
    }
}

/// Within one slot and block the true value never decreases.
pub proof fn lemma_true_value_never_decreases(current: BestTrueValue, value: BestTrueValue)
    ensures
        after_update(current, value).slot_number >= current.slot_number,
        after_update(current, value).slot_number == current.slot_number
            && after_update(current, value).block_number == current.block_number
            ==> after_update(current, value).best_true_value@ >= current.best_true_value@,
{
}

/// Within one slot and block the true value never decreases, over any
/// sequence of offers: when every value offered after a read is for the slot
/// and block then held, a later read holds that slot and block again, with a
/// true value at least the one read first.
pub proof fn lemma_true_value_never_decreases_within_block(
    current: BestTrueValue,
    values: Seq<BestTrueValue>,
)
    requires
        forall|i: int|
            0 <= i < values.len() ==> (#[trigger] values[i]).slot_number == current.slot_number
                && values[i].block_number == current.block_number,
    ensures
        after_updates(current, values).slot_number == current.slot_number,
        after_updates(current, values).block_number == current.block_number,
        after_updates(current, values).best_true_value@ >= current.best_true_value@,
    decreases values.len(),
{
    if values.len() > 0 {
        let prefix = values.drop_last();
        assert forall|i: int| 0 <= i < prefix.len() implies (#[trigger] prefix[i]).slot_number
            == current.slot_number && prefix[i].block_number == current.block_number by {
            assert(prefix[i] == values[i]);
        }
        lemma_true_value_never_decreases_within_block(current, prefix);
        assert(values[values.len() - 1] == values.last());
    }
}

/// Read after write: a value for a later slot, for another block of the same
/// slot, or with a true value at least the one held, is what the cell holds
/// next.
pub proof fn lemma_newer_value_is_kept(current: BestTrueValue, value: BestTrueValue)
    requires
        value.slot_number > current.slot_number || (value.slot_number == current.slot_number && (
        value.block_number != current.block_number || value.best_true_value@
            >= current.best_true_value@)),
    ensures
        after_update(current, value) == value,
{
}

/// Errors publishing on one connection after which the task reconnects.
pub const MAX_IO_ERRORS: usize = 5;

/// What the pushing task does next.
#[derive(Debug, Clone, Copy, PartialEq, Eq, Structural)]
pub enum PushCommand {
    /// Stop: the task was cancelled.
    Finish,
    /// Too many publishing errors: open a new connection.
    Reconnect,
    /// Wait one push interval, then read the cell.
    ReadValue,
}

/// State of the pushing task on one connection.
#[derive(Debug)]
pub struct PushLoopState {
    io_errors: usize,
    last_pushed_value: Option<BestTrueValue>,
}

/// Whether a value just read must be published, given the last one published.
pub open spec fn must_publish(last_pushed: Option<BestTrueValue>, value: BestTrueValue) -> bool {
    match last_pushed {
        None => true,
        Some(last) => !last.same_bid_info(value),
    }
}

impl PushLoopState {
    pub closed spec fn io_errors(&self) -> nat {
        self.io_errors as nat
    }

    pub closed spec fn last_pushed(&self) -> Option<BestTrueValue> {
        self.last_pushed_value
    }

    /// State on a fresh connection: no error, nothing published.
    pub fn new() -> (r: Self)
        ensures
            r.io_errors() == 0,
            r.last_pushed() is None,
    {
        PushLoopState { io_errors: 0, last_pushed_value: None }
    }

    /// The next step: finish when cancelled, reconnect after more than
    /// [`MAX_IO_ERRORS`] errors, read the cell otherwise.
    pub fn next_command(&self, cancelled: bool) -> (r: PushCommand)
        ensures
            r == (if cancelled {
                PushCommand::Finish
            } else if self.io_errors() > MAX_IO_ERRORS {
                PushCommand::Reconnect
            } else {
                PushCommand::ReadValue
            }),
    {
        if cancelled {
            PushCommand::Finish
        } else if self.io_errors > MAX_IO_ERRORS {
            PushCommand::Reconnect
        } else {
            PushCommand::ReadValue
        }
    }

    /// The cell held `best_local_value`: returns whether to publish it, which is
    /// when its bid info differs from the last one published (or none was).
    pub fn on_value_read(&mut self, best_local_value: &BestTrueValue) -> (publish: bool)
        ensures
            publish == must_publish(old(self).last_pushed(), *best_local_value),
            old(self).last_pushed() is None ==> publish,
            old(self).last_pushed() matches Some(last) ==> (publish <==> (last.block_number
                != best_local_value.block_number || last.slot_number
                != best_local_value.slot_number || last.best_true_value@
                != best_local_value.best_true_value@ || last.best_relay_value@
                != best_local_value.best_relay_value@)),
            final(self).io_errors() == old(self).io_errors(),
            final(self).last_pushed() == if publish {
                Some(*best_local_value)
            } else {
                old(self).last_pushed()
            },
    {
        let publish = match &self.last_pushed_value {
            None => true,
            Some(last) => !last.is_same_bid_info(best_local_value),
        };
        if publish {
            self.last_pushed_value = Some(best_local_value.duplicate());
        }
        publish
    }

    /// The publication ended, successfully or not; failures are counted.
    pub fn on_publish_result(&mut self, published: bool)
        requires
            old(self).io_errors() <= MAX_IO_ERRORS,
        ensures
            final(self).io_errors() == old(self).io_errors() + if published {
                0nat
            } else {
                1nat
            },
            final(self).last_pushed() == old(self).last_pushed(),
    {
        if !published {
            self.io_errors = self.io_errors + 1;
        }
    }
}

/// A value read is published exactly when nothing was published yet on the
/// connection, or when it differs from the last one published in its block,
/// its slot, its true value or its relay value (a new competition bid alone is
/// published).
pub proof fn lemma_publish_exactly_on_bid_info_change(
    last: Option<BestTrueValue>,
    value: BestTrueValue,
)
    ensures
        last is None ==> must_publish(last, value),
        last matches Some(l) ==> (must_publish(last, value) <==> (l.block_number
            != value.block_number || l.slot_number != value.slot_number || l.best_true_value@
            != value.best_true_value@ || l.best_relay_value@ != value.best_relay_value@)),
{
}

/// Nothing is published twice in a row: right after a value is published (or
/// found equal to the last one published), a value with the same bid info is
/// not published.
pub proof fn lemma_no_duplicate_push(
    last_pushed: Option<BestTrueValue>,
    value: BestTrueValue,
    again: BestTrueValue,
)
    requires
        value.same_bid_info(again),
    ensures
        !must_publish(
            if must_publish(last_pushed, value) {
                Some(value)
            } else {
                last_pushed
            },
            again,
        ),
{
}

/// The last value published after reading `values` in order, starting from
/// `last` as the last one published.
pub open spec fn last_pushed_after(
    last: Option<BestTrueValue>,
    values: Seq<BestTrueValue>,
) -> Option<BestTrueValue>
    decreases values.len(),
{
    if values.len() == 0 {
        last
    } else {
        let before = last_pushed_after(last, values.drop_last());
        if must_publish(before, values.last()) {
            Some(values.last())
        } else {
            before
        }
    }
}

/// Whether the `k`-th of the values read (from 0) is published.
pub open spec fn published_at(last: Option<BestTrueValue>, values: Seq<BestTrueValue>, k: int) -> bool {
    must_publish(last_pushed_after(last, values.take(k)), values[k])
}

/// Reading a value that is not published leaves the last published one.
proof fn lemma_last_pushed_step(last: Option<BestTrueValue>, values: Seq<BestTrueValue>, k: int)
    requires
        0 <= k < values.len(),
    ensures
        last_pushed_after(last, values.take(k + 1)) == if published_at(last, values, k) {
            Some(values[k])
        } else {
            last_pushed_after(last, values.take(k))
        },
{
    assert(values.take(k + 1).drop_last() =~= values.take(k));
    assert(values.take(k + 1).last() == values[k]);
}

/// After the `i`-th value is published, reads that are not published leave
/// it as the last one published.
proof fn lemma_skipped_reads_keep_last(values: Seq<BestTrueValue>, i: int, k: int)
    requires
        0 <= i < k <= values.len(),
        published_at(None, values, i),
        forall|m: int| i < m < k ==> !#[trigger] published_at(None, values, m),
    ensures
        last_pushed_after(None, values.take(k)) == Some(values[i]),
    decreases k - i,
{
    if k == i + 1 {
        lemma_last_pushed_step(None, values, i);
    } else {
        lemma_skipped_reads_keep_last(values, i, k - 1);
        lemma_last_pushed_step(None, values, k - 1);
        assert(!published_at(None, values, k - 1));
    }
}

/// No bid info is published twice in a row on a connection: between two
/// consecutive publications, whatever values were read and skipped, the two
/// published values differ in bid info. On a fresh connection (nothing
/// published yet) the first value read is published.
pub proof fn lemma_consecutive_publications_differ(
    values: Seq<BestTrueValue>,
    i: int,
    j: int,
)
    requires
        0 <= i < j < values.len(),
        published_at(None, values, i),
        published_at(None, values, j),
        forall|k: int| i < k < j ==> !#[trigger] published_at(None, values, k),
    ensures
        !values[i].same_bid_info(values[j]),
        values.len() > 0 ==> published_at(None, values, 0),
{
    lemma_skipped_reads_keep_last(values, i, j);
    assert(values.take(0) =~= Seq::<BestTrueValue>::empty());
}

} // verus!
