use memecoin_prediction_market::engine::{check_bet, check_claim, claim_winnings, initialize_market, place_bet, settle_market};
use memecoin_prediction_market::error::ErrorCode;
use memecoin_prediction_market::key::Key;
use memecoin_prediction_market::payout::payout;
use memecoin_prediction_market::state::{Bet, PredictionMarket};

const EXPIRY: i64 = 1_000;

fn key(b: u8) -> Key {
    Key::new([b; 32])
}

fn creator() -> Key {
    key(1)
}

fn market_key() -> Key {
    key(9)
}

fn open_market() -> PredictionMarket {
    initialize_market(false, "doge-to-the-moon".to_string(), creator(), EXPIRY).unwrap()
}

fn bet_for(user: u8) -> Bet {
    Bet::empty(key(user), market_key())
}

fn place(m: &mut PredictionMarket, b: &mut Bet, user: u8, amount: u64, side: bool) -> Result<(), ErrorCode> {
    place_bet(m, b, key(user), market_key(), amount, side, EXPIRY - 1)
}

fn settled(m: &mut PredictionMarket, outcome: bool) {
    settle_market(m, creator(), outcome, EXPIRY).unwrap();
}

#[test]
fn initialize_market_starts_open_and_empty() {
    let m = open_market();
    assert_eq!(m.name, "doge-to-the-moon");
    assert!(m.creator.same(&creator()));
    assert_eq!(m.expiry_timestamp, EXPIRY);
    assert_eq!((m.yes_amount, m.no_amount), (0, 0));
    assert!(!m.settled);
    assert!(!m.outcome);
}

#[test]
fn initialize_market_rejects_duplicate_name() {
    let r = initialize_market(true, "taken".to_string(), creator(), EXPIRY);
    assert!(matches!(r, Err(ErrorCode::DuplicateMarket)));
}

#[test]
fn key_comparison_is_bytewise() {
    let mut bytes = [7u8; 32];
    assert!(Key::new(bytes).same(&Key::new(bytes)));
    bytes[31] = 8;
    assert!(!Key::new(bytes).same(&key(7)));
    assert!(Key::zero().same(&key(0)));
}

#[test]
fn pools_equal_sum_of_accepted_bets() {
    let mut m = open_market();
    let (mut a, mut b, mut c) = (bet_for(2), bet_for(3), bet_for(4));
    let mut escrowed: u64 = 0;
    for (bet, user, amount, side) in [(&mut a, 2u8, 10u64, true), (&mut b, 3, 25, false), (&mut c, 4, 0, true)] {
        if place(&mut m, bet, user, amount, side).is_ok() {
            escrowed += amount;
        }
    }
    assert!(place(&mut m, &mut a, 2, 5, false).is_err());
    assert_eq!(place(&mut m, &mut a, 2, 5, true), Ok(()));
    escrowed += 5;
    assert_eq!(m.yes_amount, 15);
    assert_eq!(m.no_amount, 25);
    assert_eq!(m.yes_amount + m.no_amount, escrowed);
}

#[test]
fn rebet_on_same_side_accumulates_stake() {
    let mut m = open_market();
    let mut b = bet_for(2);
    assert_eq!(place(&mut m, &mut b, 2, 100, true), Ok(()));
    assert_eq!(place(&mut m, &mut b, 2, 50, true), Ok(()));
    assert_eq!(b.amount, 150);
    assert!(b.prediction);
    assert_eq!(m.yes_amount, 150);
}

#[test]
fn rebet_on_other_side_is_rejected_not_overwritten() {
    let mut m = open_market();
    let mut b = bet_for(2);
    assert_eq!(place(&mut m, &mut b, 2, 100, true), Ok(()));
    assert_eq!(place(&mut m, &mut b, 2, 40, false), Err(ErrorCode::SideMismatch));
    assert_eq!(b.amount, 100);
    assert!(b.prediction);
    assert_eq!((m.yes_amount, m.no_amount), (100, 0));
}

#[test]
fn zero_bet_is_rejected() {
    let mut m = open_market();
    let mut b = bet_for(2);
    assert_eq!(place(&mut m, &mut b, 2, 0, true), Err(ErrorCode::ZeroAmount));
    assert_eq!(b.amount, 0);
    assert_eq!(m.yes_amount, 0);
}

#[test]
fn bet_that_overflows_pool_is_rejected() {
    let mut m = open_market();
    let (mut a, mut b) = (bet_for(2), bet_for(3));
    assert_eq!(place(&mut m, &mut a, 2, u64::MAX - 10, true), Ok(()));
    assert_eq!(place(&mut m, &mut b, 3, 11, false), Err(ErrorCode::PoolOverflow));
    assert_eq!(place(&mut m, &mut b, 3, 10, false), Ok(()));
    assert_eq!(m.no_amount, 10);
}

#[test]
fn bet_at_or_after_expiry_is_rejected() {
    let mut m = open_market();
    let mut b = bet_for(2);
    for now in [EXPIRY, EXPIRY + 1, i64::MAX] {
        assert_eq!(place_bet(&mut m, &mut b, key(2), market_key(), 10, true, now), Err(ErrorCode::MarketExpired));
        assert_eq!(check_bet(&m, &b, 10, true, now), Err(ErrorCode::MarketExpired));
    }
    settled(&mut m, true);
    assert_eq!(place_bet(&mut m, &mut b, key(2), market_key(), 10, true, EXPIRY), Err(ErrorCode::MarketExpired));
    assert_eq!(m.yes_amount, 0);
}

#[test]
fn bet_on_settled_market_before_expiry_is_rejected() {
    let mut m = open_market();
    m.settled = true;
    let b = bet_for(2);
    assert_eq!(check_bet(&m, &b, 10, true, 0), Err(ErrorCode::AlreadySettled));
}

#[test]
fn check_bet_agrees_with_place_bet() {
    let mut m = open_market();
    let mut b = bet_for(2);
    assert_eq!(check_bet(&m, &b, 10, true, EXPIRY - 1), Ok(()));
    assert_eq!(place(&mut m, &mut b, 2, 10, true), Ok(()));
    assert!(b.user.same(&key(2)));
    assert!(b.market.same(&market_key()));
    assert_eq!(check_bet(&m, &b, 10, false, EXPIRY - 1), Err(ErrorCode::SideMismatch));
}

#[test]
fn settle_sets_outcome_once() {
    let mut m = open_market();
    assert_eq!(settle_market(&mut m, creator(), true, EXPIRY), Ok(()));
    assert!(m.settled);
    assert!(m.outcome);
    for (caller, outcome, now) in [(creator(), false, EXPIRY), (key(5), true, EXPIRY + 7), (creator(), true, 0)] {
        assert_eq!(settle_market(&mut m, caller, outcome, now), Err(ErrorCode::AlreadySettled));
        assert!(m.outcome);
    }
}

#[test]
fn settle_before_expiry_is_rejected() {
    let mut m = open_market();
    assert_eq!(settle_market(&mut m, creator(), true, EXPIRY - 1), Err(ErrorCode::NotYetExpired));
    assert_eq!(settle_market(&mut m, key(5), true, i64::MIN), Err(ErrorCode::NotYetExpired));
    assert!(!m.settled);
}

#[test]
fn settle_by_other_than_creator_is_rejected() {
    let mut m = open_market();
    assert_eq!(settle_market(&mut m, key(5), true, EXPIRY), Err(ErrorCode::Unauthorized));
    assert!(!m.settled);
}

#[test]
fn claim_before_settlement_is_rejected() {
    let mut m = open_market();
    let mut b = bet_for(2);
    place(&mut m, &mut b, 2, 10, true).unwrap();
    assert_eq!(claim_winnings(&m, &mut b), Err(ErrorCode::MarketNotSettled));
    assert!(!b.winnings_claimed);
}

#[test]
fn losing_and_repeated_claims_are_rejected() {
    let mut m = open_market();
    let (mut yes, mut no) = (bet_for(2), bet_for(3));
    place(&mut m, &mut yes, 2, 60, true).unwrap();
    place(&mut m, &mut no, 3, 40, false).unwrap();
    settled(&mut m, true);
    assert_eq!(claim_winnings(&m, &mut no), Err(ErrorCode::NotAWinner));
    assert!(!no.winnings_claimed);
    assert_eq!(claim_winnings(&m, &mut yes), Ok(100));
    assert!(yes.winnings_claimed);
    assert_eq!(claim_winnings(&m, &mut yes), Err(ErrorCode::AlreadyClaimed));
    assert_eq!(check_claim(&m, &yes), Err(ErrorCode::AlreadyClaimed));
}

#[test]
fn even_split_pays_whole_pool() {
    let mut m = open_market();
    let (mut w1, mut w2, mut l) = (bet_for(2), bet_for(3), bet_for(4));
    place(&mut m, &mut w1, 2, 150, true).unwrap();
    place(&mut m, &mut w2, 3, 150, true).unwrap();
    place(&mut m, &mut l, 4, 100, false).unwrap();
    assert_eq!((m.yes_amount, m.no_amount), (300, 100));
    settled(&mut m, true);
    let first = claim_winnings(&m, &mut w1).unwrap();
    let second = claim_winnings(&m, &mut w2).unwrap();
    assert_eq!(first, 200);
    assert_eq!(second, 200);
    assert_eq!(first + second, 400);
}

#[test]
fn uneven_split_leaves_bounded_dust() {
    let mut m = open_market();
    let mut winners = [bet_for(2), bet_for(3), bet_for(4)];
    for (i, stake) in [33u64, 33, 34].into_iter().enumerate() {
        place(&mut m, &mut winners[i], 2 + i as u8, stake, true).unwrap();
    }
    let mut loser = bet_for(5);
    place(&mut m, &mut loser, 5, 50, false).unwrap();
    settled(&mut m, true);
    let paid: Vec<u64> = winners.iter_mut().map(|b| claim_winnings(&m, b).unwrap()).collect();
    assert_eq!(paid, vec![49, 49, 51]);
    let total: u64 = paid.iter().sum();
    assert_eq!(total, 149);
    assert!(total <= 150 && total >= 150 - (3 - 1));
}

#[test]
fn claim_without_winning_stake_is_rejected() {
    let mut m = open_market();
    let mut l = bet_for(2);
    place(&mut m, &mut l, 2, 70, false).unwrap();
    settled(&mut m, true);
    let mut w = bet_for(3);
    w.prediction = true;
    assert_eq!(claim_winnings(&m, &mut w), Err(ErrorCode::NoWinningStake));
    assert!(!w.winnings_claimed);
    assert!(claim_winnings(&m, &mut l).is_err());
    assert!(!l.winnings_claimed);
}

#[test]
fn payout_formula_values() {
    assert_eq!(payout(150, 300, 100, true), Ok(200));
    assert_eq!(payout(33, 100, 50, true), Ok(49));
    assert_eq!(payout(50, 70, 50, false), Ok(120));
    assert_eq!(payout(1, 0, 5, true), Err(ErrorCode::NoWinningStake));
    assert_eq!(payout(u64::MAX, u64::MAX, u64::MAX, true), Err(ErrorCode::PayoutOverflow));
    assert_eq!(payout(u64::MAX, 1, u64::MAX, true), Err(ErrorCode::PayoutOverflow));
    assert_eq!(payout(u64::MAX, u64::MAX, 0, true), Ok(u64::MAX));
}

#[test]
fn claim_with_oversized_stake_reports_overflow() {
    let mut m = open_market();
    m.yes_amount = 1;
    m.no_amount = u64::MAX - 1;
    settled(&mut m, true);
    let mut b = bet_for(2);
    b.prediction = true;
    b.amount = 2;
    assert_eq!(claim_winnings(&m, &mut b), Err(ErrorCode::PayoutOverflow));
}

#[test]
fn error_messages_are_distinct() {
    let all = [
        ErrorCode::DuplicateMarket,
        ErrorCode::Unauthorized,
        ErrorCode::AlreadySettled,
        ErrorCode::NotYetExpired,
        ErrorCode::MarketExpired,
        ErrorCode::MarketNotSettled,
        ErrorCode::NotAWinner,
        ErrorCode::AlreadyClaimed,
        ErrorCode::InsufficientFunds,
        ErrorCode::NoWinningStake,
        ErrorCode::ZeroAmount,
        ErrorCode::SideMismatch,
        ErrorCode::PoolOverflow,
        ErrorCode::PayoutOverflow,
    ];
    for (i, a) in all.iter().enumerate() {
        for b in &all[i + 1..] {
            assert_ne!(a.message(), b.message());
        }
    }
    assert_eq!(ErrorCode::MarketExpired.message(), "Market has expired");
}

#[test]
fn market_totals() {
    let mut m = open_market();
    m.yes_amount = u64::MAX;
    m.no_amount = 3;
    assert_eq!(m.total(), u64::MAX as u128 + 3);
    m.outcome = false;
    assert_eq!(m.winning(), 3);
}
