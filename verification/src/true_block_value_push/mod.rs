//! Keeps the best true block value of the current slot and decides when it is
//! pushed to the rest of the infrastructure.
pub mod best_true_value_pusher;
pub mod sink_wrapper;
