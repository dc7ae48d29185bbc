//! Registry from [`BlockId`] to the blocks the builders produced, keeping only
//! the most recent ones.
use std::collections::VecDeque;
use vstd::prelude::*;

use super::traits::BlockId;

verus! {

/// Abstract state of a [`BlockRegistry`]: the ids handed out so far are
/// `1..=last`, and `stored` holds the blocks of ids `first..first + stored.len()`.
pub struct RegistryView<B> {
    pub first: nat,
    pub last: nat,
    pub max_blocks: nat,
    pub stored: Seq<B>,
}

impl<B> RegistryView<B> {
    /// A registry that has handed out no id yet.
    pub open spec fn empty(max_blocks: nat) -> RegistryView<B> {
        RegistryView { first: 1, last: 0, max_blocks, stored: Seq::empty() }
    }

    /// The window of ids `first..=last` is exactly what `stored` holds, it
    /// starts at id 1 or later (id 0 is never handed out), and it is never
    /// larger than `max_blocks`.
    pub open spec fn wf(self) -> bool {
        &&& self.first >= 1
        &&& self.first + self.stored.len() == self.last + 1
        &&& self.stored.len() <= self.max_blocks
    }

    pub open spec fn contains(self, id: int) -> bool {
        self.first <= id < self.first + self.stored.len()
    }

    pub open spec fn block(self, id: int) -> B {
        self.stored[id - self.first]
    }

    /// State after registering `block`: it gets id `last + 1`; when more than
    /// `max_blocks` blocks would be held, the oldest one is dropped.
    pub open spec fn add(self, block: B) -> RegistryView<B> {
        if self.stored.len() + 1 > self.max_blocks {
            RegistryView {
                first: self.first + 1,
                last: self.last + 1,
                max_blocks: self.max_blocks,
                stored: self.stored.push(block).drop_first(),
            }
        } else {
            RegistryView {
                first: self.first,
                last: self.last + 1,
                max_blocks: self.max_blocks,
                stored: self.stored.push(block),
            }
        }
    }

    /// State after registering each of `blocks` in order.
    pub open spec fn add_all(self, blocks: Seq<B>) -> RegistryView<B>
        decreases blocks.len(),
    {
        if blocks.len() == 0 {
            self
        } else {
            self.add_all(blocks.drop_last()).add(blocks.last())
        }
    }

    /// Number of blocks dropped by `remove_older_than(id)`: every stored block
    /// whose id is below `id`.
    pub open spec fn removed_count(self, id: int) -> nat {
        if id <= self.first {
            0
        } else if id - self.first >= self.stored.len() {
            self.stored.len()
        } else {
            (id - self.first) as nat
        }
    }

    /// State after dropping the blocks with ids below `id`.
    pub open spec fn remove_older_than(self, id: int) -> RegistryView<B> {
        let k = self.removed_count(id);
        RegistryView {
            first: self.first + k,
            last: self.last,
            max_blocks: self.max_blocks,
            stored: self.stored.skip(k as int),
        }
    }
}

/// Registering a block keeps the registry well formed.
pub proof fn lemma_add_keeps_wf<B>(r: RegistryView<B>, block: B)
    requires
        r.wf(),
    ensures
        r.add(block).wf(),
{
}

/// A well-formed registry holds exactly the ids of the last `stored.len()`
/// blocks handed out: `last - stored.len() < id <= last`.
pub proof fn lemma_window<B>(r: RegistryView<B>, id: int)
    requires
        r.wf(),
    ensures
        r.contains(id) <==> r.last - r.stored.len() < id <= r.last,
{
}

/// Id 0 is never handed out, so no registry ever holds it.
pub proof fn lemma_id_zero_never_held<B>(r: RegistryView<B>)
    requires
        r.wf(),
    ensures
        !r.contains(0),
{
}

/// Ids are fresh: a registered block gets `last + 1`, which is above every id
/// the registry handed out before.
pub proof fn lemma_fresh_id<B>(r: RegistryView<B>, block: B, id: int)
    requires
        r.wf(),
        r.contains(id),
    ensures
        r.add(block).last == r.last + 1,
        id < r.add(block).last,
{
}

/// Read after write: when the registry keeps at least one block, the block just
/// registered is found under the id it was given.
pub proof fn lemma_added_block_is_found<B>(r: RegistryView<B>, block: B)
    requires
        r.wf(),
        r.max_blocks >= 1,
    ensures
        r.add(block).contains(r.last + 1 as int),
        r.add(block).block(r.last + 1 as int) == block,
{
}

/// Registering a block never changes what an older id maps to; it only may
/// forget the oldest id.
pub proof fn lemma_add_keeps_older_blocks<B>(r: RegistryView<B>, block: B, id: int)
    requires
        r.wf(),
        id != r.last + 1,
    ensures
        r.add(block).contains(id) ==> r.contains(id) && r.add(block).block(id) == r.block(id),
        r.contains(id) && id > r.last + 1 - r.max_blocks ==> r.add(block).contains(id),
{
}

/// Starting empty and registering `blocks` in order: the i-th block (from 1)
/// gets id i, and exactly the last `min(blocks.len(), max_blocks)` of them are
/// still held.
pub proof fn lemma_fill_from_empty<B>(max_blocks: nat, blocks: Seq<B>)
    ensures
        RegistryView::<B>::empty(max_blocks).add_all(blocks).wf(),
        RegistryView::<B>::empty(max_blocks).add_all(blocks).last == blocks.len(),
        RegistryView::<B>::empty(max_blocks).add_all(blocks).max_blocks == max_blocks,
        RegistryView::<B>::empty(max_blocks).add_all(blocks).stored.len() == if blocks.len()
            <= max_blocks {
            blocks.len()
        } else {
            max_blocks
        },
        forall|id: int|
            #![trigger RegistryView::<B>::empty(max_blocks).add_all(blocks).contains(id)]
            RegistryView::<B>::empty(max_blocks).add_all(blocks).contains(id) ==> 1 <= id
                <= blocks.len() && RegistryView::<B>::empty(max_blocks).add_all(blocks).block(id)
                == blocks[id - 1],
    decreases blocks.len(),
{
    let r = RegistryView::<B>::empty(max_blocks).add_all(blocks);
    if blocks.len() > 0 {
        let prefix = blocks.drop_last();
        lemma_fill_from_empty(max_blocks, prefix);
        let p = RegistryView::<B>::empty(max_blocks).add_all(prefix);
        assert(r == p.add(blocks.last()));
        assert forall|id: int| #[trigger] r.contains(id) implies 1 <= id <= blocks.len() && r.block(
            id,
        ) == blocks[id - 1] by {
            if id == blocks.len() {
                assert(r.block(id) == blocks.last());
            } else {
                lemma_add_keeps_older_blocks(p, blocks.last(), id);
                assert(p.contains(id));
                assert(p.block(id) == prefix[id - 1]);
            }
        }
    }
}

/// Dropping the blocks older than `id` keeps every held block with id at
/// least `id`, under the same id, and nothing else.
pub proof fn lemma_remove_older_than<B>(r: RegistryView<B>, id: int, x: int)
    requires
        r.wf(),
    ensures
        r.remove_older_than(id).wf(),
        r.remove_older_than(id).contains(x) <==> r.contains(x) && x >= id,
        r.remove_older_than(id).contains(x) ==> r.remove_older_than(id).block(x) == r.block(x),
{
}

/// An operation that changes a registry: registering a block, or dropping the
/// blocks whose ids are below an id. Reading a block changes nothing.
pub enum RegistryOp<B> {
    Add(B),
    RemoveOlderThan(int),
}

impl<B> RegistryView<B> {
    /// State after one operation.
    pub open spec fn apply(self, op: RegistryOp<B>) -> RegistryView<B> {
        match op {
            RegistryOp::Add(block) => self.add(block),
            RegistryOp::RemoveOlderThan(id) => self.remove_older_than(id),
        }
    }

    /// State after the operations `ops`, in order.
    pub open spec fn apply_all(self, ops: Seq<RegistryOp<B>>) -> RegistryView<B>
        decreases ops.len(),
    {
        if ops.len() == 0 {
            self
        } else {
            self.apply_all(ops.drop_last()).apply(ops.last())
        }
    }
}

/// Number of registrations among `ops`.
pub open spec fn count_adds<B>(ops: Seq<RegistryOp<B>>) -> nat
    decreases ops.len(),
{
    if ops.len() == 0 {
        0
    } else {
        count_adds(ops.drop_last()) + if ops.last() is Add {
            1nat
        } else {
            0nat
        }
    }
}

/// Ids are never handed out twice: after any sequence of registrations and
/// removals the registry is still well formed, keeps its limit, and has handed
/// out exactly one more id per registration, so the next id is above every id
/// handed out before.
pub proof fn lemma_ids_strictly_increase<B>(r: RegistryView<B>, ops: Seq<RegistryOp<B>>)
    requires
        r.wf(),
    ensures
        r.apply_all(ops).wf(),
        r.apply_all(ops).max_blocks == r.max_blocks,
        r.apply_all(ops).last == r.last + count_adds(ops),
    decreases ops.len(),
{
    if ops.len() > 0 {
        let prefix = ops.drop_last();
        lemma_ids_strictly_increase(r, prefix);
        let p = r.apply_all(prefix);
        match ops.last() {
            RegistryOp::Add(block) => {
                lemma_add_keeps_wf(p, block);
            },
            RegistryOp::RemoveOlderThan(id) => {
                lemma_remove_older_than(p, id, 0);
            },
        }
    }
}

/// The id of the next registration is one more than the id of the previous
/// one, whatever removals came between them.
pub proof fn lemma_next_id_after_removals<B>(
    r: RegistryView<B>,
    first: B,
    removals: Seq<RegistryOp<B>>,
    second: B,
)
    requires
        r.wf(),
        forall|i: int| 0 <= i < removals.len() ==> #[trigger] removals[i] is RemoveOlderThan,
    ensures
        r.add(first).apply_all(removals).add(second).last == r.add(first).last + 1,
{
    lemma_add_keeps_wf(r, first);
    lemma_no_adds(removals);
    lemma_ids_strictly_increase(r.add(first), removals);
}

/// Operations that are all removals register nothing.
proof fn lemma_no_adds<B>(ops: Seq<RegistryOp<B>>)
    requires
        forall|i: int| 0 <= i < ops.len() ==> #[trigger] ops[i] is RemoveOlderThan,
    ensures
        count_adds(ops) == 0,
    decreases ops.len(),
{
    if ops.len() > 0 {
        let prefix = ops.drop_last();
        assert forall|i: int| 0 <= i < prefix.len() implies #[trigger] prefix[i] is RemoveOlderThan by {
            assert(prefix[i] == ops[i]);
        }
        lemma_no_adds(prefix);
        assert(ops[ops.len() - 1] is RemoveOlderThan);
    }
}

/// A registered block stays biddable while fewer than `max_blocks` further
/// blocks are registered: after it and up to `max_blocks - 1` more, it is
/// still found under its id (for a slot bidder's registry, up to 99 more).
pub proof fn lemma_block_kept_through_later_adds<B>(r: RegistryView<B>, block: B, more: Seq<B>)
    requires
        r.wf(),
        more.len() < r.max_blocks,
    ensures
        r.add(block).add_all(more).contains(r.last + 1 as int),
        r.add(block).add_all(more).block(r.last + 1 as int) == block,
    decreases more.len(),
{
    let r1 = r.add(block);
    let id: int = r.last + 1 as int;
    if more.len() == 0 {
        lemma_added_block_is_found(r, block);
    } else {
        let prefix = more.drop_last();
        lemma_block_kept_through_later_adds(r, block, prefix);
        lemma_add_keeps_wf(r, block);
        lemma_fill_stats(r1, prefix);
        let p = r1.add_all(prefix);
        lemma_add_keeps_older_blocks(p, more.last(), id);
    }
}

/// Registering `blocks` keeps a registry well formed, keeps its limit and
/// hands out one id per block.
proof fn lemma_fill_stats<B>(r: RegistryView<B>, blocks: Seq<B>)
    requires
        r.wf(),
    ensures
        r.add_all(blocks).wf(),
        r.add_all(blocks).max_blocks == r.max_blocks,
        r.add_all(blocks).last == r.last + blocks.len(),
    decreases blocks.len(),
{
    if blocks.len() > 0 {
        lemma_fill_stats(r, blocks.drop_last());
        lemma_add_keeps_wf(r.add_all(blocks.drop_last()), blocks.last());
    }
}

/// Maps [`BlockId`]s to blocks and generates the ids: the first block gets id
/// 1 and every further block the next integer. Only the last
/// `max_blocks_to_keep` blocks are kept; older ids are forgotten.
#[derive(Debug)]
pub struct BlockRegistry<B> {
    last_generated_block_id: u64,
    /// Id of the first block in `blocks`; the following blocks have sequential ids.
    first_block_id: u64,
    blocks: VecDeque<B>,
    max_blocks_to_keep: usize,
}

impl<B> View for BlockRegistry<B> {
    type V = RegistryView<B>;

    closed spec fn view(&self) -> RegistryView<B> {
        RegistryView {
            first: self.first_block_id as nat,
            last: self.last_generated_block_id as nat,
            max_blocks: self.max_blocks_to_keep as nat,
            stored: self.blocks@,
        }
    }
}

impl<B> BlockRegistry<B> {
    /// Well-formedness: the abstract state is well formed. Every registry is.
    pub open spec fn wf(&self) -> bool {
        self@.wf()
    }

    #[verifier::type_invariant]
    spec fn registry_invariant(self) -> bool {
        self@.wf()
    }

    /// An empty registry keeping at most `max_blocks_to_keep` blocks.
    pub fn new(max_blocks_to_keep: usize) -> (r: Self)
        ensures
            r.wf(),
            r@ == RegistryView::<B>::empty(max_blocks_to_keep as nat),
    {
        BlockRegistry {
            max_blocks_to_keep,
            // The first generated id is 1 since last_generated_block_id is pre-incremented.
            first_block_id: 1,
            last_generated_block_id: 0,
            blocks: VecDeque::new(),
        }
    }

    /// Last id handed out (0 before the first block).
    pub fn last_generated_block_id(&self) -> (r: u64)
        ensures
            r == self@.last,
            self.wf(),
    {
        proof {
            use_type_invariant(self);
        }
        self.last_generated_block_id
    }

    /// Registers `block` and returns its fresh id. Ids and the id of the first
    /// held block are 64-bit counters, which must not overflow.
    pub fn add_block(&mut self, block: B) -> (id: BlockId)
        requires
            old(self)@.last < u64::MAX,
            old(self)@.first < u64::MAX,
        ensures
            final(self).wf(),
            final(self)@ == old(self)@.add(block),
            id.0 == final(self)@.last,
    {
        proof {
            use_type_invariant(&*self);
        }
        let ghost old_view = self@;
        let mut taken = BlockRegistry::new(0);
        std::mem::swap(&mut taken, self);
        let BlockRegistry { last_generated_block_id, mut first_block_id, mut blocks, max_blocks_to_keep } =
            taken;
        let last_generated_block_id = last_generated_block_id + 1;
        blocks.push_back(block);
        if blocks.len() > max_blocks_to_keep {
            blocks.pop_front();
            first_block_id = first_block_id + 1;
        }
        assert(blocks@ =~= old_view.add(block).stored);
        *self = BlockRegistry { last_generated_block_id, first_block_id, blocks, max_blocks_to_keep };
        BlockId(last_generated_block_id)
    }

    /// Drops the blocks whose ids are below `id`.
    pub fn remove_older_than(&mut self, id: BlockId)
        ensures
            final(self).wf(),
            final(self)@ == old(self)@.remove_older_than(id.0 as int),
    {
        proof {
            use_type_invariant(&*self);
        }
        let ghost old_view = self@;
        let mut taken = BlockRegistry::new(0);
        std::mem::swap(&mut taken, self);
        let BlockRegistry { last_generated_block_id, mut first_block_id, mut blocks, max_blocks_to_keep } =
            taken;
        while first_block_id < id.0 && blocks.len() > 0
            invariant
                old_view.wf(),
                old_view.first <= first_block_id,
                first_block_id <= old_view.first + old_view.stored.len(),
                blocks@ =~= old_view.stored.skip(first_block_id - old_view.first),
                first_block_id - old_view.first <= old_view.removed_count(id.0 as int),
            decreases blocks@.len(),
        {
            blocks.pop_front();
            first_block_id = first_block_id + 1;
        }
        assert(blocks@ =~= old_view.remove_older_than(id.0 as int).stored);
        *self = BlockRegistry { last_generated_block_id, first_block_id, blocks, max_blocks_to_keep };
    }

    /// A clone of the block with id `id`, if it is still held.
    pub fn get_block_clon(&self, id: BlockId) -> (r: Option<B>)
        where
            B: Clone,
        ensures
            r is Some <==> self@.contains(id.0 as int),
            r matches Some(b) ==> cloned(self@.block(id.0 as int), b),
    {
        proof {
            use_type_invariant(self);
        }
        if id.0 < self.first_block_id || id.0 - self.first_block_id >= self.blocks.len() as u64 {
            return None;
        }
        let index = (id.0 - self.first_block_id) as usize;
        Some(self.blocks[index].clone())
    }
}

} // verus!
