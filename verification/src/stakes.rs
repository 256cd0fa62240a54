//! Sums over the bets of a pool.

use vstd::prelude::*;
use crate::state::{BetAccount, BetOption};

verus! {

/// The sum of the stakes of `bets`.
pub open spec fn staked(bets: Seq<BetAccount>) -> int
    decreases bets.len(),
{
    if bets.len() == 0 {
        0
    } else {
        staked(bets.drop_last()) + bets.last().bet_amount
    }
}

/// The sum of the stakes of those of `bets` that chose `option`.
pub open spec fn staked_on(bets: Seq<BetAccount>, option: BetOption) -> int
    decreases bets.len(),
{
    if bets.len() == 0 {
        0
    } else if bets.last().bet_option == option {
        staked_on(bets.drop_last(), option) + bets.last().bet_amount
    } else {
        staked_on(bets.drop_last(), option)
    }
}

/// How many of `bets` chose `option`.
pub open spec fn bets_on(bets: Seq<BetAccount>, option: BetOption) -> int
    decreases bets.len(),
{
    if bets.len() == 0 {
        0
    } else if bets.last().bet_option == option {
        bets_on(bets.drop_last(), option) + 1
    } else {
        bets_on(bets.drop_last(), option)
    }
}

/// Taking one more bet into a sum adds that bet's stake, and adds it to the
/// side that the bet chose.
pub proof fn lemma_staked_step(bets: Seq<BetAccount>, n: int, option: BetOption)
    requires
        0 <= n < bets.len(),
    ensures
        staked(bets.take(n + 1)) == staked(bets.take(n)) + bets[n].bet_amount,
        staked_on(bets.take(n + 1), option) == staked_on(bets.take(n), option) + if bets[n]
            .bet_option == option {
            bets[n].bet_amount as int
        } else {
            0
        },
        bets_on(bets.take(n + 1), option) == bets_on(bets.take(n), option) + if bets[n].bet_option
            == option {
            1int
        } else {
            0
        },
{
    assert(bets.take(n + 1).drop_last() =~= bets.take(n));
}

/// The stakes on one side are part of all stakes, and the sums over the first
/// bets of a sequence are part of the sums over all of it.
pub proof fn lemma_staked_grows(bets: Seq<BetAccount>, n: int, option: BetOption)
    requires
        0 <= n <= bets.len(),
    ensures
        0 <= staked_on(bets.take(n), option) <= staked(bets.take(n)) <= staked(bets),
        staked_on(bets.take(n), option) <= staked_on(bets, option) <= staked(bets),
    decreases bets.len() - n,
{
    lemma_side_within_all(bets.take(n), option);
    lemma_side_within_all(bets, option);
    if n == bets.len() {
        assert(bets.take(n) =~= bets);
    } else {
        lemma_staked_step(bets, n, option);
        lemma_staked_grows(bets, n + 1, option);
    }
}

/// The stakes on one side are part of all stakes, and where anything is
/// staked on a side, a bet is on it.
pub proof fn lemma_side_within_all(bets: Seq<BetAccount>, option: BetOption)
    ensures
        0 <= staked_on(bets, option) <= staked(bets),
        0 <= bets_on(bets, option) <= bets.len(),
        staked_on(bets, option) > 0 ==> bets_on(bets, option) > 0,
    decreases bets.len(),
{
    if bets.len() > 0 {
        lemma_side_within_all(bets.drop_last(), option);
    }
}

/// The sum of the stakes depends on the stakes alone: bets that agree in
/// their stakes, place by place, add up to the same.
pub proof fn lemma_staked_by_stakes(a: Seq<BetAccount>, b: Seq<BetAccount>)
    requires
        a.len() == b.len(),
        forall|i: int| 0 <= i < a.len() ==> (#[trigger] a[i]).bet_amount == b[i].bet_amount,
    ensures
        staked(a) == staked(b),
    decreases a.len(),
{
    if a.len() > 0 {
        lemma_staked_by_stakes(a.drop_last(), b.drop_last());
    }
}

/// A bet's stake is part of the stakes on the outcome that it chose.
pub proof fn lemma_stake_within_side(bets: Seq<BetAccount>, i: int)
    requires
        0 <= i < bets.len(),
    ensures
        bets[i].bet_amount <= staked_on(bets, bets[i].bet_option),
{
    let option = bets[i].bet_option;
    lemma_staked_step(bets, i, option);
    lemma_staked_grows(bets, i, option);
    lemma_staked_grows(bets, i + 1, option);
}

} // verus!
