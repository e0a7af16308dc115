use vstd::prelude::*;
use crate::key::Key;

verus! {

/// One market: its identity, deadline, pooled stakes per side and outcome.
pub struct PredictionMarket {
    /// Unique name; the market's escrow address is derived from it.
    pub name: String,
    /// The only identity allowed to settle the market.
    pub creator: Key,
    /// Betting is open strictly before this instant; settling at or after it.
    pub expiry_timestamp: i64,
    /// Tokens staked on "yes".
    pub yes_amount: u64,
    /// Tokens staked on "no".
    pub no_amount: u64,
    /// The resolved outcome; meaningful only once `settled`.
    pub outcome: bool,
    /// Set once, by settlement.
    pub settled: bool,
}

/// One participant's position in one market.
#[derive(Clone, Copy, Debug)]
pub struct Bet {
    /// The participant owning the position.
    pub user: Key,
    /// The market the position belongs to.
    pub market: Key,
    /// Tokens staked; zero while no bet has been placed.
    pub amount: u64,
    /// The predicted outcome.
    pub prediction: bool,
    /// Set once, when the winnings are paid out.
    pub winnings_claimed: bool,
}

impl PredictionMarket {
    /// Everything escrowed in the market, both sides together.
    pub open spec fn total_pool(&self) -> int {
        self.yes_amount + self.no_amount
    }

    /// What was staked on `side`.
    pub open spec fn side_pool(&self, side: bool) -> int {
        if side {
            self.yes_amount as int
        } else {
            self.no_amount as int
        }
    }

    /// What was staked on the resolved outcome.
    pub open spec fn winning_pool(&self) -> int {
        self.side_pool(self.outcome)
    }

    /// The same market, apart from its pools and its resolution.
    pub open spec fn same_identity(&self, other: &PredictionMarket) -> bool {
        &&& self.name@ == other.name@
        &&& self.creator == other.creator
        &&& self.expiry_timestamp == other.expiry_timestamp
    }

    /// Nothing about the market differs.
    pub open spec fn unchanged_from(&self, other: &PredictionMarket) -> bool {
        &&& self.same_identity(other)
        &&& self.yes_amount == other.yes_amount
        &&& self.no_amount == other.no_amount
        &&& self.outcome == other.outcome
        &&& self.settled == other.settled
    }

    /// Everything escrowed in the market, both sides together.
    pub fn total(&self) -> (r: u128)
        ensures
            r == self.total_pool(),
    {
        self.yes_amount as u128 + self.no_amount as u128
    }

    /// What was staked on the resolved outcome.
    pub fn winning(&self) -> (r: u64)
        ensures
            r == self.winning_pool(),
    {
        if self.outcome {
            self.yes_amount
        } else {
            self.no_amount
        }
    }
}

impl Bet {
    /// A position on which no bet has been placed yet.
    pub open spec fn is_empty(&self) -> bool {
        self.amount == 0
    }

    /// A position in `market` that no bet has filled yet, as freshly
    /// allocated storage holds it.
    pub fn empty(user: Key, market: Key) -> (r: Bet)
        ensures
            r.user == user,
            r.market == market,
            r.amount == 0,
            !r.prediction,
            !r.winnings_claimed,
    {
        Bet { user, market, amount: 0, prediction: false, winnings_claimed: false }
    }
}

} // verus!
