use rbuilder_operator::bidding_service_wrapper::client::{
    callback_action, create_slot_bidder_params, destroy_slot_bidder_params, landed_blocks_params,
    must_win_block_params, new_block_params, new_block_params_sent_at, parse_option_u256, update_new_bid_params,
    CallbackAction, CallbackEvent, SessionIdGenerator,
};
use rbuilder_operator::bidding_service_wrapper::conversion::{
    limbs_fit_u256, real2rpc_landed_block_info, rpc2real_landed_block_info, ConversionError,
};
use rbuilder_operator::bidding_service_wrapper::messages::{
    Bid, Callback, LandedBlockInfo as RPCLandedBlockInfo,
};
use rbuilder_operator::interfaces::{
    BuiltBlockDescriptorForSlotBidder, BuiltBlockId, LandedBlockInfo, SlotBlockId,
};
use rbuilder_operator::timestamp::Timestamp;
use rbuilder_operator::u256::U256;

fn landed(block_number: u64, ts: i64, balance: &[u64], ours: bool) -> LandedBlockInfo {
    LandedBlockInfo {
        block_number,
        block_timestamp: Timestamp::from_unix_timestamp(ts).unwrap(),
        builder_balance: U256::from_limbs_slice(balance),
        beneficiary_is_builder: ours,
    }
}

#[test]
fn landed_block_info_to_rpc() {
    let rpc = real2rpc_landed_block_info(&landed(123, 1_700_000_000, &[5, 6, 7, 8], true));
    assert_eq!(rpc.block_number, 123);
    assert_eq!(rpc.block_timestamp, 1_700_000_000);
    assert_eq!(rpc.builder_balance, vec![5, 6, 7, 8]);
    assert!(rpc.beneficiary_is_builder);
}

#[test]
fn landed_block_info_round_trip() {
    let sent = landed(9, 1_600_000_000, &[1, 0, 0, 2], false);
    let back = rpc2real_landed_block_info(&real2rpc_landed_block_info(&sent)).unwrap();
    assert_eq!(back, sent);
}

#[test]
fn landed_block_info_from_rpc_pads_balance() {
    let rpc = RPCLandedBlockInfo {
        block_number: 1,
        block_timestamp: 0,
        builder_balance: vec![42],
        beneficiary_is_builder: true,
    };
    let info = rpc2real_landed_block_info(&rpc).unwrap();
    assert_eq!(info.builder_balance.limbs, [42, 0, 0, 0]);
    assert_eq!(info.block_timestamp.unix_timestamp(), 0);
}

#[test]
fn landed_block_info_bad_timestamp() {
    let rpc = RPCLandedBlockInfo {
        block_number: 1,
        block_timestamp: i64::MAX,
        builder_balance: vec![],
        beneficiary_is_builder: false,
    };
    assert_eq!(
        rpc2real_landed_block_info(&rpc),
        Err(ConversionError::InvalidArgument("block_timestamp".to_string()))
    );
}

#[test]
fn landed_blocks_params_keep_order() {
    let blocks = vec![landed(1, 10, &[1], true), landed(2, 20, &[2], false)];
    let params = landed_blocks_params(&blocks);
    assert_eq!(params.landed_block_info.len(), 2);
    assert_eq!(params.landed_block_info[0].block_number, 1);
    assert_eq!(params.landed_block_info[1].block_timestamp, 20);
    assert_eq!(params.landed_block_info[1].builder_balance, vec![2, 0, 0, 0]);
}

#[test]
fn option_u256_from_limbs() {
    assert_eq!(parse_option_u256(vec![]), None);
    assert_eq!(parse_option_u256(vec![7]), Some(U256::from_u64(7)));
    assert_eq!(
        parse_option_u256(vec![1, 2, 3, 4]).unwrap().limbs,
        [1, 2, 3, 4]
    );
}

#[test]
fn session_ids_are_consecutive() {
    let mut ids = SessionIdGenerator::new();
    assert_eq!(ids.new_session_id(), 0);
    assert_eq!(ids.new_session_id(), 1);
    assert_eq!(ids.new_session_id(), 2);
    for k in 3..1000u64 {
        assert_eq!(ids.new_session_id(), k);
    }
}

fn rpc_bid(payout: Vec<u64>, seen: Vec<u64>, trigger: Option<u64>) -> Bid {
    Bid { payout_tx_value: payout, block_id: 77, seen_competition_bid: seen, trigger_creation_time_us: trigger }
}

#[test]
fn callback_with_bid_seals() {
    let cb = Callback { bid: Some(rpc_bid(vec![9], vec![3], Some(1_000_000))), can_use_suggested_fee_recipient_as_coinbase_change: None };
    match callback_action(CallbackEvent::Received(cb)) {
        CallbackAction::Seal(cmd) => {
            assert_eq!(cmd.block_id, BuiltBlockId(77));
            assert_eq!(cmd.payout_tx_value, U256::from_u64(9));
            assert_eq!(cmd.seen_competition_bid, Some(U256::from_u64(3)));
            assert_eq!(cmd.trigger_creation_time.unwrap().unix_timestamp(), 1);
        }
        other => panic!("unexpected {:?}", other),
    }
}

#[test]
fn callback_without_payout_or_bid_is_ignored() {
    let cb = Callback { bid: Some(rpc_bid(vec![], vec![3], None)), can_use_suggested_fee_recipient_as_coinbase_change: None };
    assert!(matches!(callback_action(CallbackEvent::Received(cb)), CallbackAction::Ignore));
    let cb = Callback { bid: None, can_use_suggested_fee_recipient_as_coinbase_change: Some(true) };
    assert!(matches!(callback_action(CallbackEvent::Received(cb)), CallbackAction::Ignore));
    let cb = Callback { bid: Some(rpc_bid(vec![1], vec![], None)), can_use_suggested_fee_recipient_as_coinbase_change: None };
    match callback_action(CallbackEvent::Received(cb)) {
        CallbackAction::Seal(cmd) => {
            assert_eq!(cmd.seen_competition_bid, None);
            assert!(cmd.trigger_creation_time.is_none());
        }
        other => panic!("unexpected {:?}", other),
    }
}

#[test]
fn stream_end_or_error_stops() {
    assert!(matches!(callback_action(CallbackEvent::Ended), CallbackAction::Stop));
    assert!(matches!(callback_action(CallbackEvent::Failed), CallbackAction::Stop));
}

#[test]
fn request_messages() {
    let ts = Timestamp::from_unix_timestamp(1_700_000_000).unwrap();
    let p = create_slot_bidder_params(SlotBlockId { slot: 5, block: 6 }, &ts, 3);
    assert_eq!((p.block, p.slot, p.session_id, p.slot_timestamp), (6, 5, 3, 1_700_000_000));
    assert_eq!(destroy_slot_bidder_params(4).session_id, 4);
    assert_eq!(must_win_block_params(12).block, 12);
    let creation = Timestamp::from_timestamp_us(1_700_000_000_000_123);
    let d = BuiltBlockDescriptorForSlotBidder {
        true_block_value: U256::from_limbs_slice(&[1, 2, 3, 4]),
        id: BuiltBlockId(8),
        creation_time: creation,
    };
    let nb = new_block_params(3, &d);
    assert_eq!(nb.session_id, 3);
    assert_eq!(nb.true_block_value, vec![1, 2, 3, 4]);
    assert!(nb.can_add_payout_tx);
    assert_eq!(nb.block_id, 8);
    assert_eq!(nb.creation_time_us, 1_700_000_000_000_123);
    assert!(nb.protocol_send_time_us >= nb.creation_time_us);
    let sent = Timestamp::from_unix_parts(1_700_000_001, 5_999).unwrap();
    let at = new_block_params_sent_at(4, &d, &sent);
    assert_eq!(at.session_id, 4);
    assert_eq!(at.true_block_value, vec![1, 2, 3, 4]);
    assert_eq!(at.block_id, 8);
    assert_eq!(at.creation_time_us, 1_700_000_000_000_123);
    assert_eq!(at.protocol_send_time_us, 1_700_000_001_000_005);
    let ub = update_new_bid_params(3, &U256::from_u64(5), &creation);
    assert_eq!(ub.bid, vec![5, 0, 0, 0]);
    assert_eq!(ub.creation_time_us, 1_700_000_000_000_123);
}

#[test]
fn limbs_fitting_u256() {
    assert!(limbs_fit_u256(&[]));
    assert!(limbs_fit_u256(&[1, 2, 3, 4]));
    assert!(limbs_fit_u256(&[1, 2, 3, 4, 0, 0]));
    assert!(!limbs_fit_u256(&[1, 2, 3, 4, 0, 5]));
    assert!(!limbs_fit_u256(&[0, 0, 0, 0, 1]));
}
