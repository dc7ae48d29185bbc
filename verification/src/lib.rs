//! Verified core of the rbuilder operator: block registries, true-block-value
//! bookkeeping, the bidding protocol conversions and the decision logic of the
//! relay streams and the configuration.

pub mod u256;
pub mod timestamp;
pub mod block_descriptor_bidding;
pub mod true_block_value_push;
pub mod best_bid_ws;
pub mod interfaces;
pub mod bidding_service_wrapper;
pub mod build_info;
pub mod metrics;
pub mod flashbots_config;
