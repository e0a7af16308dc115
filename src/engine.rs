use vstd::prelude::*;
use crate::error::ErrorCode;
use crate::key::Key;
use crate::payout::{payout, payout_result};
use crate::state::{Bet, PredictionMarket};

verus! {

/// `Ok(())` where no check failed, else the first error found.
pub open spec fn outcome_of(e: Option<ErrorCode>) -> Result<(), ErrorCode> {
    match e {
        Some(err) => Err(err),
        None => Ok(()),
    }
}

/// Why settling `m` at time `now` on behalf of `caller` is refused, if it is.
/// A settled market reports that first, whoever asks and whenever.
pub open spec fn settle_error(m: &PredictionMarket, caller: Key, now: i64) -> Option<ErrorCode> {
    if m.settled {
        Some(ErrorCode::AlreadySettled)
    } else if now < m.expiry_timestamp {
        Some(ErrorCode::NotYetExpired)
    } else if caller.bytes@ != m.creator.bytes@ {
        Some(ErrorCode::Unauthorized)
    } else {
        None
    }
}

/// Why a bet of `amount` on `prediction` at time `now`, into position `b`, is
/// refused, if it is. A bet at or after expiry reports that first.
pub open spec fn bet_error(m: &PredictionMarket, b: &Bet, amount: u64, prediction: bool, now: i64) -> Option<ErrorCode> {
    if now >= m.expiry_timestamp {
        Some(ErrorCode::MarketExpired)
    } else if m.settled {
        Some(ErrorCode::AlreadySettled)
    } else if amount == 0 {
        Some(ErrorCode::ZeroAmount)
    } else if !b.is_empty() && b.prediction != prediction {
        Some(ErrorCode::SideMismatch)
    } else if m.total_pool() + amount > u64::MAX || b.amount + amount > u64::MAX {
        Some(ErrorCode::PoolOverflow)
    } else {
        None
    }
}

/// What claiming position `b` in market `m` pays out, or why it is refused.
pub open spec fn claim_result(m: &PredictionMarket, b: &Bet) -> Result<u64, ErrorCode> {
    if !m.settled {
        Err(ErrorCode::MarketNotSettled)
    } else if b.prediction != m.outcome {
        Err(ErrorCode::NotAWinner)
    } else if b.winnings_claimed {
        Err(ErrorCode::AlreadyClaimed)
    } else {
        payout_result(b.amount, m.yes_amount, m.no_amount, m.outcome)
    }
}

/// `new` is `old` with `amount` more staked on `prediction`.
pub open spec fn bet_applied(old: &PredictionMarket, new: &PredictionMarket, amount: u64, prediction: bool) -> bool {
    &&& new.same_identity(old)
    &&& new.settled == old.settled
    &&& new.outcome == old.outcome
    &&& new.side_pool(prediction) == old.side_pool(prediction) + amount
    &&& new.side_pool(!prediction) == old.side_pool(!prediction)
}

/// `new` is `old` settled with `outcome`, pools untouched.
pub open spec fn settled_with(old: &PredictionMarket, new: &PredictionMarket, outcome: bool) -> bool {
    &&& new.same_identity(old)
    &&& new.yes_amount == old.yes_amount
    &&& new.no_amount == old.no_amount
    &&& new.settled
    &&& new.outcome == outcome
}

/// `new` is `old` marked claimed, and otherwise the same.
pub open spec fn claimed_from(old: &Bet, new: &Bet) -> bool {
    &&& new.winnings_claimed
    &&& new.user == old.user
    &&& new.market == old.market
    &&& new.amount == old.amount
    &&& new.prediction == old.prediction
}

/// A new open market with empty pools, unless the registry already holds one
/// of that name (`already_exists`, as the registry reports it).
pub fn initialize_market(already_exists: bool, market_name: String, creator: Key, expiry_timestamp: i64) -> (r: Result<PredictionMarket, ErrorCode>)
    ensures
        already_exists <==> r == Err::<PredictionMarket, ErrorCode>(ErrorCode::DuplicateMarket),
        r is Ok <==> !already_exists,
        r matches Ok(m) ==> {
            &&& m.name@ == market_name@
            &&& m.creator == creator
            &&& m.expiry_timestamp == expiry_timestamp
            &&& m.yes_amount == 0
            &&& m.no_amount == 0
            &&& !m.outcome
            &&& !m.settled
        },
{
    if already_exists {
        return Err(ErrorCode::DuplicateMarket);
    }
    Ok(PredictionMarket {
        name: market_name,
        creator,
        expiry_timestamp,
        yes_amount: 0,
        no_amount: 0,
        outcome: false,
        settled: false,
    })
}

/// Resolves `market` with `outcome`, on behalf of `caller` at time `now`.
/// Irreversible: a settled market refuses any further settlement.
pub fn settle_market(market: &mut PredictionMarket, caller: Key, outcome: bool, now: i64) -> (r: Result<(), ErrorCode>)
    ensures
        r == outcome_of(settle_error(old(market), caller, now)),
        r is Ok ==> settled_with(old(market), final(market), outcome),
        r is Err ==> final(market).unchanged_from(old(market)),
{
    if market.settled {
        return Err(ErrorCode::AlreadySettled);
    }
    if now < market.expiry_timestamp {
        return Err(ErrorCode::NotYetExpired);
    }
    if !caller.same(&market.creator) {
        return Err(ErrorCode::Unauthorized);
    }
    market.outcome = outcome;
    market.settled = true;
    Ok(())
}

/// Checks a bet before any tokens move: the same verdict `place_bet` gives.
pub fn check_bet(market: &PredictionMarket, bet: &Bet, amount: u64, prediction: bool, now: i64) -> (r: Result<(), ErrorCode>)
    ensures
        r == outcome_of(bet_error(market, bet, amount, prediction, now)),
{
    if now >= market.expiry_timestamp {
        return Err(ErrorCode::MarketExpired);
    }
    if market.settled {
        return Err(ErrorCode::AlreadySettled);
    }
    if amount == 0 {
        return Err(ErrorCode::ZeroAmount);
    }
    if bet.amount != 0 && bet.prediction != prediction {
        return Err(ErrorCode::SideMismatch);
    }
    let pool: u128 = market.yes_amount as u128 + market.no_amount as u128;
    if pool + amount as u128 > u64::MAX as u128 || bet.amount > u64::MAX - amount {
        return Err(ErrorCode::PoolOverflow);
    }
    Ok(())
}

/// Records a bet of `amount` tokens on `prediction` by `user` into the
/// position `bet` of `market` (whose address is `market_key`), the tokens
/// having been escrowed. A further bet adds to the stake and must predict the
/// same outcome. All or nothing: a refused bet changes neither record.
pub fn place_bet(
    market: &mut PredictionMarket,
    bet: &mut Bet,
    user: Key,
    market_key: Key,
    amount: u64,
    prediction: bool,
    now: i64,
) -> (r: Result<(), ErrorCode>)
    ensures
        r == outcome_of(bet_error(old(market), old(bet), amount, prediction, now)),
        r is Ok ==> {
            &&& bet_applied(old(market), final(market), amount, prediction)
            &&& final(bet).user == user
            &&& final(bet).market == market_key
            &&& final(bet).amount == old(bet).amount + amount
            &&& final(bet).prediction == prediction
            &&& final(bet).winnings_claimed == old(bet).winnings_claimed
        },
        r is Err ==> final(market).unchanged_from(old(market)) && *final(bet) == *old(bet),
{
    match check_bet(market, bet, amount, prediction, now) {
        Err(e) => Err(e),
        Ok(()) => {
            if prediction {
                market.yes_amount = market.yes_amount + amount;
            } else {
                market.no_amount = market.no_amount + amount;
            }
            bet.user = user;
            bet.market = market_key;
            bet.amount = bet.amount + amount;
            bet.prediction = prediction;
            Ok(())
        },
    }
}

/// Checks a claim before any tokens move, and gives the winnings it pays:
/// the same verdict `claim_winnings` gives.
pub fn check_claim(market: &PredictionMarket, bet: &Bet) -> (r: Result<u64, ErrorCode>)
    ensures
        r == claim_result(market, bet),
{
    if !market.settled {
        return Err(ErrorCode::MarketNotSettled);
    }
    if bet.prediction != market.outcome {
        return Err(ErrorCode::NotAWinner);
    }
    if bet.winnings_claimed {
        return Err(ErrorCode::AlreadyClaimed);
    }
    payout(bet.amount, market.yes_amount, market.no_amount, market.outcome)
}

/// Claims the winnings of position `bet` in `market`, the returned amount
/// having been paid out of escrow; the position is marked claimed. A refused
/// claim leaves the position as it was.
pub fn claim_winnings(market: &PredictionMarket, bet: &mut Bet) -> (r: Result<u64, ErrorCode>)
    ensures
        r == claim_result(market, old(bet)),
        r is Ok ==> claimed_from(old(bet), final(bet)),
        r is Err ==> *final(bet) == *old(bet),
{
    let r = check_claim(market, bet);
    if r.is_ok() {
        bet.winnings_claimed = true;
    }
    r
}

} // verus!
