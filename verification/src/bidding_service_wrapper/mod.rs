//! The bidding service protocol: its messages, the conversions between them
//! and the builder's values, and what the client decides.
pub mod client;
pub mod conversion;
pub mod messages;
