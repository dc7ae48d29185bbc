use rbuilder_operator::block_descriptor_bidding::adapters::{
    describe_new_block, full_bid_for, new_slot_block_registry, MAX_ACTIVE_BLOCKS,
};
use rbuilder_operator::block_descriptor_bidding::block_registry::BlockRegistry;
use rbuilder_operator::block_descriptor_bidding::traits::{Bid, BlockId};
use rbuilder_operator::u256::U256;

#[derive(Clone, Debug, PartialEq)]
struct MockBlock {
    true_block_value: U256,
    can_add_payout_tx: bool,
}

impl MockBlock {
    fn new(true_block_value: U256, can_add_payout_tx: bool) -> Self {
        MockBlock { true_block_value, can_add_payout_tx }
    }
}

const MAX_BLOCKS: usize = 10;

#[test]
fn add_block() {
    let mut registry = BlockRegistry::new(MAX_BLOCKS);
    let initial_true_block_value = 0;
    let mut block_ids = Vec::new();
    for i in 0..=MAX_BLOCKS {
        let true_block_value = U256::from_u64((i + initial_true_block_value) as u64);
        let can_add_payout_tx = i % 2 == 0;
        let block_id = registry.add_block(MockBlock::new(true_block_value, can_add_payout_tx));
        block_ids.push(block_id.clone());
        let block = registry.get_block_clon(block_id).unwrap();
        assert_eq!(block.true_block_value, true_block_value);
        assert_eq!(block.can_add_payout_tx, can_add_payout_tx);
    }
    // it should remember the last MAX_BLOCKS
    for i in 1..=MAX_BLOCKS {
        let true_block_value = U256::from_u64((i + initial_true_block_value) as u64);
        let can_add_payout_tx = i % 2 == 0;
        let block = registry.get_block_clon(block_ids[i].clone()).unwrap();
        assert_eq!(block.true_block_value, true_block_value);
        assert_eq!(block.can_add_payout_tx, can_add_payout_tx);
    }
    // the oldest should not be stored.
    assert!(registry.get_block_clon(block_ids[0].clone()).is_none());
}

#[test]
fn ids_start_at_one_and_increase() {
    let mut registry = BlockRegistry::new(3);
    assert_eq!(registry.last_generated_block_id(), 0);
    assert_eq!(registry.add_block(10u32), BlockId(1));
    assert_eq!(registry.add_block(20u32), BlockId(2));
    assert_eq!(registry.add_block(30u32), BlockId(3));
    assert_eq!(registry.last_generated_block_id(), 3);
}

#[test]
fn unknown_and_future_ids_are_not_found() {
    let mut registry = BlockRegistry::new(3);
    assert_eq!(registry.get_block_clon(BlockId(0)), None);
    assert_eq!(registry.get_block_clon(BlockId(1)), None);
    registry.add_block("a".to_string());
    assert_eq!(registry.get_block_clon(BlockId(1)), Some("a".to_string()));
    assert_eq!(registry.get_block_clon(BlockId(2)), None);
    assert_eq!(registry.get_block_clon(BlockId(u64::MAX)), None);
}

#[test]
fn window_keeps_last_blocks() {
    let mut registry = BlockRegistry::new(2);
    for v in 1..=5u32 {
        registry.add_block(v * 100);
    }
    assert_eq!(registry.get_block_clon(BlockId(3)), None);
    assert_eq!(registry.get_block_clon(BlockId(4)), Some(400));
    assert_eq!(registry.get_block_clon(BlockId(5)), Some(500));
}

#[test]
fn zero_capacity_keeps_nothing() {
    let mut registry = BlockRegistry::new(0);
    let id = registry.add_block(7u8);
    assert_eq!(id, BlockId(1));
    assert_eq!(registry.get_block_clon(id), None);
    assert_eq!(registry.add_block(8u8), BlockId(2));
}

#[test]
fn remove_older_than_drops_only_older_blocks() {
    let mut registry = BlockRegistry::new(10);
    for v in 1..=5u32 {
        registry.add_block(v);
    }
    registry.remove_older_than(BlockId(3));
    assert_eq!(registry.get_block_clon(BlockId(1)), None);
    assert_eq!(registry.get_block_clon(BlockId(2)), None);
    assert_eq!(registry.get_block_clon(BlockId(3)), Some(3));
    assert_eq!(registry.get_block_clon(BlockId(5)), Some(5));
    // Removing past the end empties the registry but ids go on.
    registry.remove_older_than(BlockId(100));
    assert_eq!(registry.get_block_clon(BlockId(5)), None);
    assert_eq!(registry.add_block(6), BlockId(6));
    assert_eq!(registry.get_block_clon(BlockId(6)), Some(6));
}

#[test]
fn slot_registry_keeps_max_active_blocks() {
    let mut registry = new_slot_block_registry::<u64>();
    for v in 0..(MAX_ACTIVE_BLOCKS as u64 + 1) {
        registry.add_block(v);
    }
    assert_eq!(registry.get_block_clon(BlockId(1)), None);
    assert_eq!(registry.get_block_clon(BlockId(2)), Some(1));
    assert_eq!(registry.get_block_clon(BlockId(101)), Some(100));
}

#[test]
fn new_block_is_described_with_its_fresh_id() {
    let mut registry = new_slot_block_registry::<MockBlock>();
    let tbv = U256::from_u64(1234);
    let d1 = describe_new_block(&mut registry, MockBlock::new(tbv, true), tbv, true);
    assert_eq!(*d1.id(), BlockId(1));
    assert_eq!(d1.true_block_value(), tbv);
    assert!(d1.can_add_payout_tx());
    let d2 = describe_new_block(&mut registry, MockBlock::new(U256::zero(), false), U256::zero(), false);
    assert_eq!(*d2.id(), BlockId(2));
    assert!(!d2.can_add_payout_tx());
}

#[test]
fn bid_on_known_block_becomes_full_bid() {
    let mut registry = new_slot_block_registry::<MockBlock>();
    let block = MockBlock::new(U256::from_u64(77), true);
    let id = registry.add_block(block.clone());
    let bid = Bid {
        block_id: id,
        payout_tx_value: Some(U256::from_u64(5)),
        seen_competition_bid: None,
        trigger_creation_time: None,
    };
    let full = full_bid_for(&registry, &bid).unwrap();
    assert_eq!(full.block, block);
    assert_eq!(full.payout_tx_value, Some(U256::from_u64(5)));
    assert_eq!(full.seen_competition_bid, None);
    let lost = Bid { block_id: BlockId(99), ..bid };
    assert!(full_bid_for(&registry, &lost).is_none());
}

#[test]
fn next_id_follows_whatever_removals_came_between() {
    let mut registry = BlockRegistry::new(MAX_BLOCKS);
    let first = registry.add_block(MockBlock::new(U256::from_u64(1), true));
    registry.remove_older_than(BlockId(first.0 + 5));
    registry.remove_older_than(BlockId(0));
    let _ = registry.get_block_clon(first);
    let second = registry.add_block(MockBlock::new(U256::from_u64(2), true));
    assert_eq!(second.0, first.0 + 1);
    let mut seen = vec![first.0, second.0];
    for i in 0..30u64 {
        if i % 3 == 0 {
            registry.remove_older_than(BlockId(i));
        }
        let id = registry.add_block(MockBlock::new(U256::from_u64(i), false));
        assert!(seen.iter().all(|s| *s < id.0));
        seen.push(id.0);
    }
}

#[test]
fn block_stays_biddable_through_99_more_blocks() {
    let mut registry = new_slot_block_registry();
    let id = registry.add_block(MockBlock::new(U256::from_u64(77), true));
    for i in 0..(MAX_ACTIVE_BLOCKS - 1) {
        registry.add_block(MockBlock::new(U256::from_u64(i as u64), false));
    }
    let block = registry.get_block_clon(id).unwrap();
    assert_eq!(block.true_block_value, U256::from_u64(77));
    registry.add_block(MockBlock::new(U256::zero(), false));
    assert!(registry.get_block_clon(id).is_none());
}
