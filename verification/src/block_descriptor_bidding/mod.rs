//! A simplified version of the bidding world that passes a [`traits::BlockDescriptor`]
//! instead of a full block, which is a much heavier object.
pub mod block_registry;
pub mod traits;
pub mod adapters;
