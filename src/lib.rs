//! Settlement engine of a binary pari-mutuel prediction market.
//!
//! Participants escrow tokens on one of two outcomes before a market's expiry;
//! after expiry the market's creator settles the outcome, and each winner
//! redeems a pro-rata share of the combined pool. The operations here decide
//! and commit state; moving tokens is left to the caller, between the check of
//! an operation and its commit.

pub mod key;
pub mod error;
pub mod state;
pub mod payout;
pub mod engine;
pub mod laws;
