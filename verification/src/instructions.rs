//! The four operations of the engine, each on the accounts it touches.

pub mod initialize;
pub mod place_bet;
pub mod refund_bet;
pub mod resolve_bet;
