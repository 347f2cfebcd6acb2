//! The pro-rata payout.
//!
//! The winners split the whole pool in proportion to their stakes on the
//! winning side. Shares are rounded down, so less than one unit per winner
//! stays behind in custody for good.

use vstd::prelude::*;

verus! {

/// The share of `total_pool` owed to a stake of `amount` on a winning side
/// on which `winning_pool` was staked in all: the exact share, rounded
/// down.
pub open spec fn payout(total_pool: int, amount: int, winning_pool: int) -> int
    recommends
        winning_pool > 0,
{
    (total_pool * amount) / winning_pool
}

/// What rounding the share down leaves behind.
pub open spec fn dust(total_pool: int, amount: int, winning_pool: int) -> int
    recommends
        winning_pool > 0,
{
    (total_pool * amount) % winning_pool
}

/// A payout and its dust make up the exact share, and the dust is less
/// than what one more unit of payout would take.
pub proof fn lemma_payout_exact(total_pool: int, amount: int, winning_pool: int)
    requires
        winning_pool > 0,
    ensures
        payout(total_pool, amount, winning_pool) * winning_pool + dust(
            total_pool,
            amount,
            winning_pool,
        ) == total_pool * amount,
        0 <= dust(total_pool, amount, winning_pool) < winning_pool,
{
    let x = total_pool * amount;
    assert(x == (x / winning_pool) * winning_pool + x % winning_pool && 0 <= x % winning_pool
        < winning_pool) by (nonlinear_arith)
        requires
            winning_pool > 0,
    ;
}

/// A stake that is part of the winning pool is never paid more than the
/// whole pool, nor less than nothing.
pub proof fn lemma_payout_within_pool(total_pool: int, amount: int, winning_pool: int)
    requires
        0 <= total_pool,
        0 <= amount <= winning_pool,
        0 < winning_pool,
    ensures
        0 <= payout(total_pool, amount, winning_pool) <= total_pool,
{
    lemma_payout_exact(total_pool, amount, winning_pool);
    let q = payout(total_pool, amount, winning_pool);
    let r = dust(total_pool, amount, winning_pool);
    assert(q <= total_pool && 0 <= q) by (nonlinear_arith)
        requires
            q * winning_pool + r == total_pool * amount,
            0 <= r < winning_pool,
            0 <= total_pool,
            0 <= amount <= winning_pool,
            0 < winning_pool,
    ;
}

/// Computes the payout, where it can be paid: `None` when nothing was
/// staked on the winning side, or when the share does not fit in `u64`.
pub fn checked_payout(total_pool: u64, amount: u64, winning_pool: u64) -> (paid: Option<u64>)
    ensures
        paid == if winning_pool > 0 && payout(
            total_pool as int,
            amount as int,
            winning_pool as int,
        ) <= u64::MAX {
            Some(payout(total_pool as int, amount as int, winning_pool as int) as u64)
        } else {
            None
        },
{
    if winning_pool == 0 {
        return None;
    }
    assert(total_pool * amount <= u128::MAX) by (nonlinear_arith)
        requires
            total_pool <= u64::MAX,
            amount <= u64::MAX,
    ;
    let share: u128 = (total_pool as u128) * (amount as u128) / (winning_pool as u128);
    if share > u64::MAX as u128 {
        None
    } else {
        Some(share as u64)
    }
}

} // verus!
