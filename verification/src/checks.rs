//! Checks on the bets that are handed in with a pool.

use vstd::prelude::*;
use crate::address::Address;
use crate::book::{all_of_pool, all_placed, bets_of_pool, every_settled, one_bet_each, some_settled};
use crate::stakes::{lemma_staked_grows, lemma_staked_step, staked};
use crate::state::{BetAccount, LotteryPool};

verus! {

/// Whether one of `bets` is settled.
pub(crate) fn any_settled(bets: &Vec<BetAccount>) -> (r: bool)
    ensures
        r == some_settled(bets@),
{
    let mut i: usize = 0;
    while i < bets.len()
        invariant
            i <= bets@.len(),
            forall|j: int| 0 <= j < i ==> !(#[trigger] bets@[j]).is_settled,
        decreases bets@.len() - i,
    {
        if bets[i].is_settled {
            return true;
        }
        i = i + 1;
    }
    false
}

/// Whether every one of `bets` names `pool_key` as its pool.
fn belong_to(bets: &Vec<BetAccount>, pool_key: &Address) -> (r: bool)
    ensures
        r == all_of_pool(bets@, *pool_key),
{
    let mut i: usize = 0;
    while i < bets.len()
        invariant
            i <= bets@.len(),
            forall|j: int| 0 <= j < i ==> (#[trigger] bets@[j]).lottery_pool == *pool_key,
        decreases bets@.len() - i,
    {
        if bets[i].lottery_pool != *pool_key {
            return false;
        }
        i = i + 1;
    }
    true
}

/// Whether every one of `bets` holds a stake.
fn hold_stakes(bets: &Vec<BetAccount>) -> (r: bool)
    ensures
        r == all_placed(bets@),
{
    let mut i: usize = 0;
    while i < bets.len()
        invariant
            i <= bets@.len(),
            forall|j: int| 0 <= j < i ==> (#[trigger] bets@[j]).bet_amount > 0,
        decreases bets@.len() - i,
    {
        if bets[i].bet_amount == 0 {
            return false;
        }
        i = i + 1;
    }
    true
}

/// Whether no participant has two bets among `bets`.
fn distinct_bettors(bets: &Vec<BetAccount>) -> (r: bool)
    ensures
        r == one_bet_each(bets@),
{
    let mut j: usize = 0;
    while j < bets.len()
        invariant
            j <= bets@.len(),
            forall|a: int, b: int|
                0 <= a < b < j ==> (#[trigger] bets@[a]).bettor != (#[trigger] bets@[b]).bettor,
        decreases bets@.len() - j,
    {
        let mut i: usize = 0;
        while i < j
            invariant
                i <= j < bets@.len(),
                forall|a: int|
                    0 <= a < i ==> (#[trigger] bets@[a]).bettor != bets@[j as int].bettor,
            decreases j - i,
        {
            if bets[i].bettor == bets[j].bettor {
                return false;
            }
            i = i + 1;
        }
        j = j + 1;
    }
    true
}

/// Whether the stakes of `bets` add up to `pool_total`.
fn stakes_add_up(bets: &Vec<BetAccount>, pool_total: u64) -> (r: bool)
    ensures
        r == (staked(bets@) == pool_total),
{
    let mut sum: u64 = 0;
    let mut i: usize = 0;
    while i < bets.len()
        invariant
            i <= bets@.len(),
            sum == staked(bets@.take(i as int)),
            sum <= pool_total,
        decreases bets@.len() - i,
    {
        let bet = bets[i];
        proof {
            lemma_staked_step(bets@, i as int, bet.bet_option);
            lemma_staked_grows(bets@, i as int + 1, bet.bet_option);
        }
        if bet.bet_amount > pool_total - sum {
            return false;
        }
        sum = sum + bet.bet_amount;
        i = i + 1;
    }
    proof {
        assert(bets@.take(i as int) =~= bets@);
    }
    sum == pool_total
}

/// Whether `bets` are the bets of the pool `pool` kept under `pool_key`, each
/// of them once.
pub(crate) fn are_bets_of_pool(
    bets: &Vec<BetAccount>,
    pool: &LotteryPool,
    pool_key: &Address,
) -> (r: bool)
    ensures
        r == bets_of_pool(bets@, *pool, *pool_key),
{
    belong_to(bets, pool_key) && hold_stakes(bets) && distinct_bettors(bets) && stakes_add_up(
        bets,
        pool.total_bet_amount,
    )
}

/// Whether every one of `bets` is settled.
pub(crate) fn all_settled_already(bets: &Vec<BetAccount>) -> (r: bool)
    ensures
        r == every_settled(bets@),
{
    let mut i: usize = 0;
    while i < bets.len()
        invariant
            i <= bets@.len(),
            forall|j: int| 0 <= j < i ==> (#[trigger] bets@[j]).is_settled,
        decreases bets@.len() - i,
    {
        if !bets[i].is_settled {
            return false;
        }
        i = i + 1;
    }
    true
}

} // verus!
