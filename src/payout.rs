use vstd::prelude::*;
use crate::error::ErrorCode;

verus! {

/// A winner's share of the pool: `floor(stake * total / winning)`.
pub open spec fn share(stake: int, total: int, winning: int) -> int {
    stake * total / winning
}

/// What a claim on a winning stake pays out, or why it cannot.
pub open spec fn payout_result(stake: u64, yes_amount: u64, no_amount: u64, outcome: bool) -> Result<u64, ErrorCode> {
    let total = yes_amount + no_amount;
    let winning = if outcome { yes_amount as int } else { no_amount as int };
    if winning == 0 {
        Err(ErrorCode::NoWinningStake)
    } else if share(stake as int, total, winning) > u64::MAX {
        Err(ErrorCode::PayoutOverflow)
    } else {
        Ok(share(stake as int, total, winning) as u64)
    }
}

/// Pro-rata payout of a winning `stake` on a market with the given pools,
/// settled with `outcome`. The product is formed in 128 bits.
pub fn payout(stake: u64, yes_amount: u64, no_amount: u64, outcome: bool) -> (r: Result<u64, ErrorCode>)
    ensures
        r == payout_result(stake, yes_amount, no_amount, outcome),
{
    let total: u128 = yes_amount as u128 + no_amount as u128;
    let winning: u64 = if outcome { yes_amount } else { no_amount };
    if winning == 0 {
        return Err(ErrorCode::NoWinningStake);
    }
    match (stake as u128).checked_mul(total) {
        None => {
            proof {
                let p = stake * total;
                assert(p > u128::MAX);
                assert(p / (winning as int) > u64::MAX) by (nonlinear_arith)
                    requires
                        p > u128::MAX,
                        0 < winning <= u64::MAX,
                ;
            }
            Err(ErrorCode::PayoutOverflow)
        },
        Some(product) => {
            let w = product / (winning as u128);
            if w > u64::MAX as u128 {
                Err(ErrorCode::PayoutOverflow)
            } else {
                Ok(w as u64)
            }
        },
    }
}

} // verus!
