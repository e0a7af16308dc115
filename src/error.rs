use vstd::prelude::*;

verus! {

/// Every way an operation on a market or a bet can be rejected. None is
/// transient: a rejected operation leaves all state as it was.
#[derive(Clone, Copy, Debug, PartialEq, Eq, Structural)]
pub enum ErrorCode {
    /// A market of that name exists already.
    DuplicateMarket,
    /// Only the market's creator may settle it.
    Unauthorized,
    /// The market has been settled already.
    AlreadySettled,
    /// Settlement was asked for before the market's expiry.
    NotYetExpired,
    /// A bet was placed at or after the market's expiry.
    MarketExpired,
    /// A claim was made on a market that is not settled yet.
    MarketNotSettled,
    /// The claimed bet predicted the outcome that did not happen.
    NotAWinner,
    /// The bet's winnings have been paid out already.
    AlreadyClaimed,
    /// The escrow could not debit the amount.
    InsufficientFunds,
    /// Nobody staked on the winning side, so there is nothing to share.
    NoWinningStake,
    /// A bet of zero tokens.
    ZeroAmount,
    /// A further bet on the other side than the participant's existing bet.
    SideMismatch,
    /// The bet would take the pool or a stake past the largest token amount.
    PoolOverflow,
    /// The payout does not fit in a token amount (a stake larger than its pool).
    PayoutOverflow,
}

impl ErrorCode {
    /// A human-readable description of the error.
    pub fn message(&self) -> (r: &'static str) {
        match self {
            ErrorCode::DuplicateMarket => "A market with this name already exists",
            ErrorCode::Unauthorized => "Only the market creator may settle the market",
            ErrorCode::AlreadySettled => "Market has already been settled",
            ErrorCode::NotYetExpired => "Market has not expired yet",
            ErrorCode::MarketExpired => "Market has expired",
            ErrorCode::MarketNotSettled => "Market has not been settled",
            ErrorCode::NotAWinner => "You are not a winner in this market",
            ErrorCode::AlreadyClaimed => "Winnings have already been claimed",
            ErrorCode::InsufficientFunds => "Insufficient funds for the transfer",
            ErrorCode::NoWinningStake => "Nobody staked on the winning outcome",
            ErrorCode::ZeroAmount => "A bet must be of a positive amount",
            ErrorCode::SideMismatch => "A further bet must predict the same outcome",
            ErrorCode::PoolOverflow => "The bet would overflow the pool",
            ErrorCode::PayoutOverflow => "The payout does not fit in a token amount",
        }
    }
}

} // verus!
