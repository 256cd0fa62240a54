//! Settling a whole pool at once: the pool is shared out among the winners in
//! proportion to their stakes.
//!
//! Each winner's payout is its stake's part of the winning side, taken of the
//! whole pool and rounded down; what the rounding leaves stays in the pool.
//! The winning side is summed over the bets handed in, so the bets handed in
//! must be the pool's bets, each of them once.

use vstd::prelude::*;
use crate::address::Address;
use crate::book::{bets_of_pool, some_settled, PoolBook};
use crate::checks::{any_settled, are_bets_of_pool};
use crate::error::MyLotteryError;
use crate::payout::{proportional_payout, proportional_share};
use crate::port::{Transfer, TransferOutcome};
use crate::stakes::{lemma_stake_within_side, lemma_staked_grows, lemma_staked_step, staked,
    staked_on};
use crate::state::{BetAccount, BetOption, LotteryPool};

verus! {

/// What the bet at place `i` is paid from a pool of `pool_total` when
/// `winning_option` has come: its share where it chose that outcome,
/// nothing where it did not.
pub open spec fn payout_at(
    bets: Seq<BetAccount>,
    pool_total: int,
    winning_option: BetOption,
    i: int,
) -> int {
    if bets[i].bet_option == winning_option {
        proportional_share(
            bets[i].bet_amount as int,
            pool_total,
            staked_on(bets, winning_option),
        )
    } else {
        0
    }
}

/// The transfers that pay the first `n` of `bets`, in the order of the bets:
/// one from the pool to the bettor for each bet that is paid anything.
pub open spec fn payouts_due(
    bets: Seq<BetAccount>,
    pool_key: Address,
    pool_total: int,
    winning_option: BetOption,
    n: int,
) -> Seq<Transfer>
    decreases n,
{
    if n <= 0 {
        Seq::empty()
    } else {
        let earlier = payouts_due(bets, pool_key, pool_total, winning_option, n - 1);
        let payout = payout_at(bets, pool_total, winning_option, n - 1);
        if payout > 0 {
            earlier.push(Transfer { from: pool_key, to: bets[n - 1].bettor, amount: payout as u64 })
        } else {
            earlier
        }
    }
}

/// `bets` with every bet marked settled, and nothing else changed.
pub open spec fn all_settled(bets: Seq<BetAccount>) -> Seq<BetAccount> {
    Seq::new(bets.len(), |i: int| BetAccount { is_settled: true, ..bets[i] })
}

/// What a settlement of a whole pool works on.
#[derive(Clone, Debug, PartialEq, Eq)]
pub struct SettleAndPayout {
    /// The pool to settle.
    pub lottery_pool: LotteryPool,
    /// The key under which the host keeps the pool, and which holds its funds.
    pub lottery_pool_key: Address,
    /// The bets of the pool.
    pub bet_accounts: Vec<BetAccount>,
    /// The caller, as the host has verified it.
    pub admin: Address,
}

impl View for SettleAndPayout {
    type V = PoolBook;

    open spec fn view(&self) -> PoolBook {
        PoolBook {
            lottery_pool: self.lottery_pool,
            lottery_pool_key: self.lottery_pool_key,
            bet_accounts: self.bet_accounts@,
            admin: self.admin,
        }
    }
}

impl PoolBook {
    /// Why the settlement is refused, if it is. The reasons are looked for in
    /// this order: the pool or one of the bets is settled already; the caller
    /// is not the pool's administrator; the bets are not the pool's bets,
    /// each of them once.
    pub open spec fn refusal(self) -> Option<MyLotteryError> {
        if self.lottery_pool.is_settled || some_settled(self.bet_accounts) {
            Some(MyLotteryError::AlreadySettled)
        } else if self.admin != self.lottery_pool.admin {
            Some(MyLotteryError::Unauthorized)
        } else if !bets_of_pool(self.bet_accounts, self.lottery_pool, self.lottery_pool_key) {
            Some(MyLotteryError::AccountMismatch)
        } else {
            None
        }
    }

    /// The transfers that the settlement asks for when `winning_option` has
    /// come.
    pub open spec fn transfers(self, winning_option: BetOption) -> Seq<Transfer> {
        payouts_due(
            self.bet_accounts,
            self.lottery_pool_key,
            self.lottery_pool.total_bet_amount as int,
            winning_option,
            self.bet_accounts.len() as int,
        )
    }

    /// How the settlement ends when the transfer port answers `moved`: the
    /// reason for which it is refused, `TransferFailure` where payouts were
    /// due and the port did not move them, else the transfers that were made.
    pub open spec fn outcome(self, winning_option: BetOption, moved: TransferOutcome) -> Result<
        Seq<Transfer>,
        MyLotteryError,
    > {
        match self.refusal() {
            Some(e) => Err(e),
            None => if self.transfers(winning_option).len() > 0 && moved
                == TransferOutcome::Failed {
                Err(MyLotteryError::TransferFailure)
            } else {
                Ok(self.transfers(winning_option))
            },
        }
    }

    /// The records once the pool is settled: the pool and every bet are
    /// marked, and nothing else is changed.
    pub open spec fn settled(self) -> PoolBook {
        PoolBook {
            lottery_pool: LotteryPool { is_settled: true, ..self.lottery_pool },
            bet_accounts: all_settled(self.bet_accounts),
            ..self
        }
    }

    /// The records after the settlement: settled where it succeeds, as they
    /// were where it does not.
    pub open spec fn after(self, winning_option: BetOption, moved: TransferOutcome) -> PoolBook {
        if self.outcome(winning_option, moved) is Ok {
            self.settled()
        } else {
            self
        }
    }
}

impl SettleAndPayout {
    /// Decides the settlement without recording it: the reason for which it
    /// is refused, or the transfers that pay the winners.
    pub fn payouts(&self, winning_option: BetOption) -> (r: Result<Vec<Transfer>, MyLotteryError>)
        ensures
            match self@.refusal() {
                Some(e) => r == Err::<Vec<Transfer>, MyLotteryError>(e),
                None => r is Ok && r->Ok_0@ == self@.transfers(winning_option),
            },
    {
        if self.lottery_pool.is_settled || any_settled(&self.bet_accounts) {
            return Err(MyLotteryError::AlreadySettled);
        }
        if self.admin != self.lottery_pool.admin {
            return Err(MyLotteryError::Unauthorized);
        }
        if !are_bets_of_pool(&self.bet_accounts, &self.lottery_pool, &self.lottery_pool_key) {
            return Err(MyLotteryError::AccountMismatch);
        }
        let winning_total = winning_stake(&self.bet_accounts, winning_option);
        let pool_total = self.lottery_pool.total_bet_amount;
        let mut due: Vec<Transfer> = Vec::new();
        let mut i: usize = 0;
        while i < self.bet_accounts.len()
            invariant
                i <= self.bet_accounts@.len(),
                staked(self.bet_accounts@) == pool_total,
                winning_total == staked_on(self.bet_accounts@, winning_option),
                due@ == payouts_due(
                    self.bet_accounts@,
                    self.lottery_pool_key,
                    pool_total as int,
                    winning_option,
                    i as int,
                ),
            decreases self.bet_accounts@.len() - i,
        {
            let bet = self.bet_accounts[i];
            if bet.bet_option == winning_option {
                proof {
                    lemma_stake_within_side(self.bet_accounts@, i as int);
                }
                let payout = proportional_payout(
                    bet.bet_amount,
                    pool_total,
                    winning_total,
                ).unwrap();
                if payout > 0 {
                    due.push(
                        Transfer { from: self.lottery_pool_key, to: bet.bettor, amount: payout },
                    );
                }
            }
            i = i + 1;
        }
        Ok(due)
    }
}

/// Settles the pool for `winning_option`, given the transfer port's answer
/// `moved` on the transfers that `SettleAndPayout::payouts` names.
///
/// Where the settlement is refused, or payouts were due and the port did not
/// move them, nothing is changed. Else the pool and every bet are marked
/// settled and the transfers that were made are returned; a bet that lost is
/// settled with no transfer, which is no failure. `moved` is not looked at
/// where no transfer is asked for.
pub fn settle_and_payout(
    ctx: &mut SettleAndPayout,
    winning_option: BetOption,
    moved: TransferOutcome,
) -> (r: Result<Vec<Transfer>, MyLotteryError>)
    ensures
        match old(ctx)@.outcome(winning_option, moved) {
            Ok(transfers) => r is Ok && r->Ok_0@ == transfers,
            Err(e) => r == Err::<Vec<Transfer>, MyLotteryError>(e),
        },
        final(ctx)@ == old(ctx)@.after(winning_option, moved),
        r is Err ==> *final(ctx) == *old(ctx),
        old(ctx).lottery_pool.is_settled || some_settled(old(ctx).bet_accounts@) ==> r == Err::<
            Vec<Transfer>,
            MyLotteryError,
        >(MyLotteryError::AlreadySettled),
{
    let transfers = match ctx.payouts(winning_option) {
        Ok(transfers) => transfers,
        Err(e) => {
            return Err(e);
        },
    };
    if transfers.len() > 0 {
        match moved {
            TransferOutcome::Failed => {
                return Err(MyLotteryError::TransferFailure);
            },
            TransferOutcome::Completed => {},
        }
    }
    let ghost before = ctx.bet_accounts@;
    let mut i: usize = 0;
    while i < ctx.bet_accounts.len()
        invariant
            i <= before.len(),
            ctx.bet_accounts@.len() == before.len(),
            forall|j: int| 0 <= j < i ==> ctx.bet_accounts@[j] == all_settled(before)[j],
            forall|j: int| i <= j < before.len() ==> ctx.bet_accounts@[j] == before[j],
            ctx.lottery_pool == old(ctx).lottery_pool,
            ctx.lottery_pool_key == old(ctx).lottery_pool_key,
            ctx.admin == old(ctx).admin,
        decreases before.len() - i,
    {
        ctx.bet_accounts[i].is_settled = true;
        i = i + 1;
    }
    ctx.lottery_pool.is_settled = true;
    assert(ctx.bet_accounts@ =~= all_settled(before));
    Ok(transfers)
}

/// What was staked on `option`.
fn winning_stake(bets: &Vec<BetAccount>, option: BetOption) -> (r: u64)
    requires
        staked(bets@) <= u64::MAX,
    ensures
        r == staked_on(bets@, option),
{
    let mut side: u64 = 0;
    let mut i: usize = 0;
    while i < bets.len()
        invariant
            i <= bets@.len(),
            side == staked_on(bets@.take(i as int), option),
            staked(bets@) <= u64::MAX,
        decreases bets@.len() - i,
    {
        let bet = bets[i];
        proof {
            lemma_staked_step(bets@, i as int, option);
            lemma_staked_grows(bets@, i as int + 1, option);
        }
        if bet.bet_option == option {
            side = side + bet.bet_amount;
        }
        i = i + 1;
    }
    proof {
        assert(bets@.take(i as int) =~= bets@);
    }
    side
}

} // verus!
