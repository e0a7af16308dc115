use vstd::prelude::*;
use vstd::arithmetic::div_mod::{lemma_div_is_ordered, lemma_div_multiples_vanish, lemma_div_pos_is_pos, lemma_fundamental_div_mod, lemma_mod_pos_bound};
use vstd::arithmetic::mul::{lemma_mul_inequality, lemma_mul_nonnegative};
use crate::error::ErrorCode;
use crate::key::Key;
use crate::payout::share;
use crate::state::{Bet, PredictionMarket};
use crate::engine::{bet_applied, bet_error, claim_result, claimed_from, settle_error, settled_with};

verus! {

/// Sum of the amounts of the accepted bets among `amounts`.
pub open spec fn escrowed(amounts: Seq<u64>, accepted: Seq<bool>) -> int
    decreases amounts.len(),
{
    if amounts.len() == 0 {
        0
    } else {
        let last = amounts.len() - 1;
        escrowed(amounts.drop_last(), accepted.drop_last()) + if accepted[last] {
            amounts[last] as int
        } else {
            0
        }
    }
}

/// Over any run of bets, each of which is accepted and applied (by
/// `place_bet`) or refused with the market left as it was, the pools grow by
/// exactly the sum of the accepted amounts.
pub proof fn lemma_pools_track_escrow(markets: Seq<PredictionMarket>, amounts: Seq<u64>, sides: Seq<bool>, accepted: Seq<bool>)
    requires
        markets.len() == amounts.len() + 1,
        sides.len() == amounts.len(),
        accepted.len() == amounts.len(),
        forall|i: int| 0 <= i < amounts.len() && accepted[i] ==> bet_applied(&markets[i], &markets[i + 1], amounts[i], sides[i]),
        forall|i: int| 0 <= i < amounts.len() && !accepted[i] ==> (#[trigger] markets[i + 1]).unchanged_from(&markets[i]),
    ensures
        markets.last().total_pool() == markets[0].total_pool() + escrowed(amounts, accepted),
    decreases amounts.len(),
{
    if amounts.len() > 0 {
        let n = amounts.len() - 1;
        lemma_pools_track_escrow(markets.drop_last(), amounts.drop_last(), sides.drop_last(), accepted.drop_last());
        assert(markets.drop_last().last() == markets[n]);
        if accepted[n] {
            assert(bet_applied(&markets[n], &markets[n + 1], amounts[n], sides[n]));
        } else {
            assert(markets[n + 1].unchanged_from(&markets[n]));
        }
    }
}

/// Once a settlement was accepted, every further settlement of the market is
/// refused as already settled, whoever asks and whenever.
pub proof fn lemma_settle_only_once(before: PredictionMarket, after: PredictionMarket, caller: Key, outcome: bool, now: i64, next_caller: Key, next_now: i64)
    requires
        settle_error(&before, caller, now) is None,
        settled_with(&before, &after, outcome),
    ensures
        settle_error(&after, next_caller, next_now) == Some(ErrorCode::AlreadySettled),
{
}

/// Any bet at or after the market's expiry is refused as expired.
pub proof fn lemma_no_bet_after_expiry(m: PredictionMarket, b: Bet, amount: u64, prediction: bool, now: i64)
    requires
        now >= m.expiry_timestamp,
    ensures
        bet_error(&m, &b, amount, prediction, now) == Some(ErrorCode::MarketExpired),
{
}

/// Settling an open market before its expiry is refused as not yet expired,
/// whoever asks.
pub proof fn lemma_no_settle_before_expiry(m: PredictionMarket, caller: Key, now: i64)
    requires
        !m.settled,
        now < m.expiry_timestamp,
    ensures
        settle_error(&m, caller, now) == Some(ErrorCode::NotYetExpired),
{
}

/// A claim on a position that predicted the other outcome than the settled
/// one is refused as not a winner.
pub proof fn lemma_loser_cannot_claim(m: PredictionMarket, b: Bet)
    requires
        m.settled,
        b.prediction != m.outcome,
    ensures
        claim_result(&m, &b) == Err::<u64, ErrorCode>(ErrorCode::NotAWinner),
{
}

/// Once a claim on a position was paid, claiming it again is refused as
/// already claimed.
pub proof fn lemma_claim_only_once(m: PredictionMarket, before: Bet, after: Bet)
    requires
        claim_result(&m, &before) is Ok,
        claimed_from(&before, &after),
    ensures
        claim_result(&m, &after) == Err::<u64, ErrorCode>(ErrorCode::AlreadyClaimed),
{
}

/// On a settled market where nobody staked on the outcome, no claim is ever
/// paid; an unclaimed position on the winning side is refused as having no
/// winning stake to share.
pub proof fn lemma_no_winning_stake(m: PredictionMarket, b: Bet)
    requires
        m.settled,
        m.winning_pool() == 0,
    ensures
        claim_result(&m, &b) is Err,
        b.prediction == m.outcome && !b.winnings_claimed ==> claim_result(&m, &b)
            == Err::<u64, ErrorCode>(ErrorCode::NoWinningStake),
{
}


/// Stakes of the positions in `bets` that predicted `outcome`.
pub open spec fn winning_stakes(bets: Seq<Bet>, outcome: bool) -> int
    decreases bets.len(),
{
    if bets.len() == 0 {
        0
    } else {
        winning_stakes(bets.drop_last(), outcome) + if bets.last().prediction == outcome {
            bets.last().amount as int
        } else {
            0
        }
    }
}

/// How many positions in `bets` predicted `outcome`.
pub open spec fn winner_count(bets: Seq<Bet>, outcome: bool) -> int
    decreases bets.len(),
{
    if bets.len() == 0 {
        0
    } else {
        winner_count(bets.drop_last(), outcome) + if bets.last().prediction == outcome {
            1int
        } else {
            0
        }
    }
}

/// The winnings of all positions in `bets` that predicted `outcome`, each
/// given its share of `total` against the winning pool `winning`.
pub open spec fn winnings_paid(bets: Seq<Bet>, outcome: bool, total: int, winning: int) -> int
    decreases bets.len(),
{
    if bets.len() == 0 {
        0
    } else {
        winnings_paid(bets.drop_last(), outcome, total, winning) + if bets.last().prediction == outcome {
            share(bets.last().amount as int, total, winning)
        } else {
            0
        }
    }
}

proof fn lemma_share_floor(stake: int, total: int, winning: int)
    requires
        winning > 0,
        stake >= 0,
        total >= 0,
    ensures
        winning * share(stake, total, winning) <= stake * total,
        winning * share(stake, total, winning) >= stake * total - (winning - 1),
{
    let x = stake * total;
    lemma_fundamental_div_mod(x, winning);
    lemma_mod_pos_bound(x, winning);
}

proof fn lemma_share_within_total(stake: int, total: int, winning: int)
    requires
        0 <= stake <= winning,
        winning > 0,
        total >= 0,
    ensures
        0 <= share(stake, total, winning) <= total,
{
    lemma_mul_inequality(stake, winning, total);
    lemma_div_is_ordered(stake * total, winning * total, winning);
    assert(winning * total == total * winning) by (nonlinear_arith);
    lemma_div_multiples_vanish(total, winning);
    lemma_mul_nonnegative(stake, total);
    lemma_div_pos_is_pos(stake * total, winning);
}

proof fn lemma_winnings_paid_bounds(bets: Seq<Bet>, outcome: bool, total: int, winning: int)
    requires
        winning > 0,
        total >= 0,
    ensures
        winning * winnings_paid(bets, outcome, total, winning) <= total * winning_stakes(bets, outcome),
        winning * winnings_paid(bets, outcome, total, winning) >= total * winning_stakes(bets, outcome)
            - winner_count(bets, outcome) * (winning - 1),
        winner_count(bets, outcome) >= 0,
        winning_stakes(bets, outcome) >= 0,
        winner_count(bets, outcome) == 0 ==> winning_stakes(bets, outcome) == 0,
        forall|i: int| 0 <= i < bets.len() && (#[trigger] bets[i]).prediction == outcome
            ==> bets[i].amount <= winning_stakes(bets, outcome),
    decreases bets.len(),
{
    if bets.len() > 0 {
        let rest = bets.drop_last();
        let b = bets.last();
        lemma_winnings_paid_bounds(rest, outcome, total, winning);
        let p = winnings_paid(rest, outcome, total, winning);
        let s = winning_stakes(rest, outcome);
        let c = winner_count(rest, outcome);
        assert forall|i: int| 0 <= i < bets.len() && (#[trigger] bets[i]).prediction == outcome
            implies bets[i].amount <= winning_stakes(bets, outcome) by {
            if i < bets.len() - 1 {
                assert(rest[i] == bets[i]);
            }
        }
        if b.prediction == outcome {
            let a = b.amount as int;
            let q = share(a, total, winning);
            lemma_mul_nonnegative(a, total);
            lemma_share_floor(a, total, winning);
            assert(winning * (p + q) == winning * p + winning * q) by (nonlinear_arith);
            assert(total * (s + a) == total * s + a * total) by (nonlinear_arith);
            assert((c + 1) * (winning - 1) == c * (winning - 1) + (winning - 1)) by (nonlinear_arith);
        }
    }
}

/// Conservation of a settled market's pool under floor-rounded payouts: where
/// `bets` are the market's positions, whose winning stakes make up the winning
/// pool, the winners' shares add up to at most the whole pool and fall short
/// of it by less than the number of winners. Each unclaimed winner's claim
/// pays exactly its share, where the pool fits in a token amount.
pub proof fn lemma_payouts_within_pool(m: PredictionMarket, bets: Seq<Bet>)
    requires
        m.settled,
        m.winning_pool() > 0,
        winning_stakes(bets, m.outcome) == m.winning_pool(),
    ensures
        winnings_paid(bets, m.outcome, m.total_pool(), m.winning_pool()) <= m.total_pool(),
        winnings_paid(bets, m.outcome, m.total_pool(), m.winning_pool())
            >= m.total_pool() - (winner_count(bets, m.outcome) - 1),
        m.total_pool() <= u64::MAX ==> forall|i: int|
            0 <= i < bets.len() && (#[trigger] bets[i]).prediction == m.outcome && !bets[i].winnings_claimed
                ==> claim_result(&m, &bets[i]) == Ok::<u64, ErrorCode>(
                    share(bets[i].amount as int, m.total_pool(), m.winning_pool()) as u64),
{
    let t = m.total_pool();
    let w = m.winning_pool();
    lemma_winnings_paid_bounds(bets, m.outcome, t, w);
    let p = winnings_paid(bets, m.outcome, t, w);
    let c = winner_count(bets, m.outcome);
    assert(w * p <= t * w);
    assert(p <= t) by (nonlinear_arith)
        requires
            w > 0,
            w * p <= t * w,
    ;
    assert(c >= 1);
    assert(w * p >= t * w - c * (w - 1));
    assert(p >= t - (c - 1)) by (nonlinear_arith)
        requires
            w > 0,
            c >= 1,
            w * p >= t * w - c * (w - 1),
    ;
    if t <= u64::MAX {
        assert forall|i: int|
            0 <= i < bets.len() && (#[trigger] bets[i]).prediction == m.outcome && !bets[i].winnings_claimed
                implies claim_result(&m, &bets[i]) == Ok::<u64, ErrorCode>(
                    share(bets[i].amount as int, t, w) as u64) by {
            lemma_share_within_total(bets[i].amount as int, t, w);
        }
    }
}

} // verus!
