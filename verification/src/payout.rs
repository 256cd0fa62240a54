//! How much a settled bet pays.
//!
//! Amounts are whole numbers throughout. A share of a pool is rounded down,
//! and what the rounding leaves stays in the pool.

use vstd::prelude::*;
use crate::state::BetOption;

verus! {

/// What a winning stake is multiplied by when a bet is settled at fixed odds.
pub const FIXED_ODDS_MULTIPLIER: u64 = 2;

/// The share of a pool of `pool_total` that falls to a winning stake, where
/// `winning_total` is what all winners staked together: the stake's part of
/// the winning side, taken of the whole pool and rounded down. Where nothing
/// was staked on the winning outcome, nothing is shared out.
pub open spec fn proportional_share(stake: int, pool_total: int, winning_total: int) -> int {
    if winning_total > 0 {
        (stake * pool_total) / winning_total
    } else {
        0
    }
}

/// What a bet settled at fixed odds pays: the stake times the multiplier
/// where the bet chose the outcome that came, and nothing where it did not.
pub open spec fn fixed_odds_return(stake: int, chosen: BetOption, outcome: BetOption) -> int {
    if chosen == outcome {
        stake * FIXED_ODDS_MULTIPLIER
    } else {
        0
    }
}

/// A share is never negative, and rounding never hands out more than the
/// exact share: `winning_total` shares of that size fit into `stake` pools.
pub proof fn lemma_share_rounds_down(stake: int, pool_total: int, winning_total: int)
    requires
        0 <= stake,
        0 <= pool_total,
        0 <= winning_total,
    ensures
        0 <= proportional_share(stake, pool_total, winning_total),
        winning_total * proportional_share(stake, pool_total, winning_total) <= stake * pool_total,
{
    if winning_total > 0 {
        let product = stake * pool_total;
        assert(0 <= product) by (nonlinear_arith)
            requires
                0 <= stake,
                0 <= pool_total,
                product == stake * pool_total,
        ;
        assert(0 <= product / winning_total && winning_total * (product / winning_total) <= product)
            by (nonlinear_arith)
            requires
                0 <= product,
                0 < winning_total,
        ;
    } else {
        assert(0 <= stake * pool_total) by (nonlinear_arith)
            requires
                0 <= stake,
                0 <= pool_total,
        ;
    }
}

/// Rounding takes less than one unit off a share: one unit more for each of
/// `winning_total` such shares would pass `stake` pools.
pub proof fn lemma_share_rounds_little(stake: int, pool_total: int, winning_total: int)
    requires
        0 <= stake,
        0 <= pool_total,
        0 < winning_total,
    ensures
        winning_total * (proportional_share(stake, pool_total, winning_total) + 1) > stake
            * pool_total,
{
    let product = stake * pool_total;
    assert(0 <= product) by (nonlinear_arith)
        requires
            0 <= stake,
            0 <= pool_total,
            product == stake * pool_total,
    ;
    assert(winning_total * (product / winning_total + 1) > product) by (nonlinear_arith)
        requires
            0 <= product,
            0 < winning_total,
    ;
}

/// A stake that is part of the winning side never takes more than the pool
/// holds, and, where the winning side is part of the pool, never less than
/// itself.
pub proof fn lemma_share_bounds(stake: int, pool_total: int, winning_total: int)
    requires
        0 <= stake <= winning_total,
        0 <= pool_total,
    ensures
        proportional_share(stake, pool_total, winning_total) <= pool_total,
        winning_total <= pool_total ==> stake <= proportional_share(
            stake,
            pool_total,
            winning_total,
        ),
{
    if winning_total > 0 {
        let product = stake * pool_total;
        assert(product <= winning_total * pool_total) by (nonlinear_arith)
            requires
                0 <= stake <= winning_total,
                0 <= pool_total,
                product == stake * pool_total,
        ;
        assert(product / winning_total <= pool_total) by (nonlinear_arith)
            requires
                product <= winning_total * pool_total,
                0 < winning_total,
        ;
        if winning_total <= pool_total {
            assert(stake * winning_total <= product) by (nonlinear_arith)
                requires
                    0 <= stake,
                    winning_total <= pool_total,
                    product == stake * pool_total,
            ;
            assert(stake <= product / winning_total) by (nonlinear_arith)
                requires
                    stake * winning_total <= product,
                    0 < winning_total,
            ;
        }
    }
}

/// Computes a stake's share of a pool: `Some` of `proportional_share` where
/// that amount can be written down, `None` where it is too large, which
/// happens only to a stake larger than the winning side it is said to be
/// part of.
pub fn proportional_payout(stake: u64, pool_total: u64, winning_total: u64) -> (payout: Option<u64>)
    ensures
        payout == if proportional_share(stake as int, pool_total as int, winning_total as int)
            <= u64::MAX {
            Some(proportional_share(stake as int, pool_total as int, winning_total as int) as u64)
        } else {
            None
        },
        stake <= winning_total ==> payout is Some,
{
    if winning_total == 0 {
        return Some(0);
    }
    assert(stake * pool_total <= 0xffff_ffff_ffff_ffff * 0xffff_ffff_ffff_ffff)
        by (nonlinear_arith)
        requires
            stake <= 0xffff_ffff_ffff_ffff,
            pool_total <= 0xffff_ffff_ffff_ffff,
    ;
    let product: u128 = (stake as u128) * (pool_total as u128);
    let share: u128 = product / (winning_total as u128);
    proof {
        if stake <= winning_total {
            assert(product / (winning_total as u128) <= pool_total) by (nonlinear_arith)
                requires
                    product == stake * pool_total,
                    stake <= winning_total,
                    0 < winning_total,
            ;
        }
    }
    if share > u64::MAX as u128 {
        None
    } else {
        Some(share as u64)
    }
}

/// Computes what a bet settled at fixed odds pays: `Some` of
/// `fixed_odds_return` where that amount can be written down, `None` where
/// the multiplied stake is too large.
pub fn fixed_odds_payout(stake: u64, chosen: BetOption, outcome: BetOption) -> (payout: Option<u64>)
    ensures
        payout == if fixed_odds_return(stake as int, chosen, outcome) <= u64::MAX {
            Some(fixed_odds_return(stake as int, chosen, outcome) as u64)
        } else {
            None
        },
{
    if chosen == outcome {
        stake.checked_mul(FIXED_ODDS_MULTIPLIER)
    } else {
        Some(0)
    }
}

} // verus!
