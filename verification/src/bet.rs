//! Placing a bet: a participant stakes an amount on one outcome of a pool's
//! match, once, before the pool's deadline.

use vstd::prelude::*;
use crate::address::Address;
use crate::error::MyLotteryError;
use crate::port::{Transfer, TransferOutcome};
use crate::state::{BetAccount, BetOption, LotteryPool};

verus! {

/// What the placing of a bet works on.
#[derive(Clone, Copy, Debug, PartialEq, Eq)]
pub struct PlaceBet {
    /// The slot that the host keeps for this participant and this pool.
    pub bet_account: BetAccount,
    /// The pool that the bet is placed on.
    pub lottery_pool: LotteryPool,
    /// The key under which the host keeps the pool, and which holds its funds.
    pub lottery_pool_key: Address,
    /// The participant, as the host has verified it.
    pub bettor: Address,
}

impl PlaceBet {
    /// Why a bet of `bet_amount` at time `now` is refused, if it is. The
    /// reasons are looked for in this order: the deadline is reached; the
    /// participant's slot holds a bet; the pool is settled; the pool's total
    /// cannot take the stake.
    pub open spec fn refusal(&self, now: i64, bet_amount: u64) -> Option<MyLotteryError> {
        if now >= self.lottery_pool.end_timestamp {
            Some(MyLotteryError::BettingPeriodEnded)
        } else if self.bet_account.bet_amount > 0 {
            Some(MyLotteryError::AlreadyBet)
        } else if self.lottery_pool.is_settled {
            Some(MyLotteryError::AlreadySettled)
        } else if self.lottery_pool.total_bet_amount + bet_amount > u64::MAX {
            Some(MyLotteryError::TransferFailure)
        } else {
            None
        }
    }

    /// The transfer that a bet of `bet_amount` asks for: the stake, from the
    /// participant to the pool.
    pub open spec fn stake_transfer(&self, bet_amount: u64) -> Transfer {
        Transfer { from: self.bettor, to: self.lottery_pool_key, amount: bet_amount }
    }

    /// How the placing of the bet ends when the transfer port answers
    /// `moved`: the reason for which the bet is refused, `TransferFailure`
    /// where the port did not move the stake, else success.
    pub open spec fn outcome(&self, now: i64, bet_amount: u64, moved: TransferOutcome) -> Result<
        (),
        MyLotteryError,
    > {
        match self.refusal(now, bet_amount) {
            Some(e) => Err(e),
            None => match moved {
                TransferOutcome::Failed => Err(MyLotteryError::TransferFailure),
                TransferOutcome::Completed => Ok(()),
            },
        }
    }

    /// The records once the bet is placed: the slot holds the bet, unsettled,
    /// and the pool's total has grown by the stake.
    pub open spec fn recorded(&self, bet_amount: u64, bet_option: BetOption) -> PlaceBet {
        PlaceBet {
            bet_account: BetAccount {
                bettor: self.bettor,
                bet_amount,
                bet_option,
                lottery_pool: self.lottery_pool_key,
                is_settled: false,
            },
            lottery_pool: LotteryPool {
                total_bet_amount: (self.lottery_pool.total_bet_amount + bet_amount) as u64,
                ..self.lottery_pool
            },
            ..*self
        }
    }

    /// The records after the placing of the bet: with the bet recorded where
    /// it succeeds, as they were where it does not.
    pub open spec fn after(
        &self,
        now: i64,
        bet_amount: u64,
        bet_option: BetOption,
        moved: TransferOutcome,
    ) -> PlaceBet {
        if self.outcome(now, bet_amount, moved) is Ok {
            self.recorded(bet_amount, bet_option)
        } else {
            *self
        }
    }

    /// Decides a bet of `bet_amount` at time `now` without recording it: the
    /// reason for which it is refused, or the transfer of the stake that it
    /// asks for.
    pub fn deposit(&self, now: i64, bet_amount: u64) -> (r: Result<Transfer, MyLotteryError>)
        requires
            bet_amount > 0,
        ensures
            r == match self.refusal(now, bet_amount) {
                Some(e) => Err::<Transfer, MyLotteryError>(e),
                None => Ok(self.stake_transfer(bet_amount)),
            },
            now >= self.lottery_pool.end_timestamp ==> r == Err::<Transfer, MyLotteryError>(
                MyLotteryError::BettingPeriodEnded,
            ),
    {
        if now >= self.lottery_pool.end_timestamp {
            return Err(MyLotteryError::BettingPeriodEnded);
        }
        if self.bet_account.bet_amount > 0 {
            return Err(MyLotteryError::AlreadyBet);
        }
        if self.lottery_pool.is_settled {
            return Err(MyLotteryError::AlreadySettled);
        }
        if bet_amount > u64::MAX - self.lottery_pool.total_bet_amount {
            return Err(MyLotteryError::TransferFailure);
        }
        Ok(Transfer { from: self.bettor, to: self.lottery_pool_key, amount: bet_amount })
    }
}

/// Places a bet of `bet_amount` on `bet_option` at time `now`, given the
/// transfer port's answer `moved` on the transfer that `PlaceBet::deposit`
/// names.
///
/// Where the bet is refused, or the port did not move the stake, nothing is
/// changed. Else the slot holds the bet and the pool's total has grown by the
/// stake. `moved` is not looked at where the bet is refused: no transfer is
/// asked for then.
pub fn place_bet(
    ctx: &mut PlaceBet,
    now: i64,
    bet_amount: u64,
    bet_option: BetOption,
    moved: TransferOutcome,
) -> (r: Result<(), MyLotteryError>)
    requires
        bet_amount > 0,
    ensures
        r == old(ctx).outcome(now, bet_amount, moved),
        *final(ctx) == old(ctx).after(now, bet_amount, bet_option, moved),
        now >= old(ctx).lottery_pool.end_timestamp ==> r == Err::<(), MyLotteryError>(
            MyLotteryError::BettingPeriodEnded,
        ) && *final(ctx) == *old(ctx),
{
    match ctx.deposit(now, bet_amount) {
        Ok(_) => {},
        Err(e) => {
            return Err(e);
        },
    }
    match moved {
        TransferOutcome::Failed => {
            return Err(MyLotteryError::TransferFailure);
        },
        TransferOutcome::Completed => {},
    }
    ctx.bet_account.bettor = ctx.bettor;
    ctx.bet_account.bet_amount = bet_amount;
    ctx.bet_account.bet_option = bet_option;
    ctx.bet_account.lottery_pool = ctx.lottery_pool_key;
    ctx.bet_account.is_settled = false;
    ctx.lottery_pool.total_bet_amount = ctx.lottery_pool.total_bet_amount + bet_amount;
    Ok(())
}

} // verus!
