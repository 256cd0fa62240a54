//! Closing a pool whose bets were settled one by one.

use vstd::prelude::*;
use crate::book::{bets_of_pool, every_settled, PoolBook};
use crate::checks::{all_settled_already, are_bets_of_pool};
use crate::error::MyLotteryError;
use crate::settle::SettleAndPayout;
use crate::state::LotteryPool;

verus! {

impl PoolBook {
    /// Why the closing is refused, if it is. The reasons are looked for in
    /// this order: the pool is settled already; the caller is not the pool's
    /// administrator; the bets are not the pool's bets, each of them once.
    pub open spec fn closing_refusal(self) -> Option<MyLotteryError> {
        if self.lottery_pool.is_settled {
            Some(MyLotteryError::AlreadySettled)
        } else if self.admin != self.lottery_pool.admin {
            Some(MyLotteryError::Unauthorized)
        } else if !bets_of_pool(self.bet_accounts, self.lottery_pool, self.lottery_pool_key) {
            Some(MyLotteryError::AccountMismatch)
        } else {
            None
        }
    }

    /// How the closing ends: the reason for which it is refused, else
    /// whether every bet of the pool is settled, and the pool so closed.
    pub open spec fn closing(self) -> Result<bool, MyLotteryError> {
        match self.closing_refusal() {
            Some(e) => Err(e),
            None => Ok(every_settled(self.bet_accounts)),
        }
    }

    /// The records after the closing: the pool marked settled where every
    /// bet of it is, as they were else.
    pub open spec fn after_closing(self) -> PoolBook {
        if self.closing() == Ok::<bool, MyLotteryError>(true) {
            PoolBook { lottery_pool: LotteryPool { is_settled: true, ..self.lottery_pool }, ..self }
        } else {
            self
        }
    }
}

/// Marks the pool settled once all its bets are: `Ok(true)` where every bet
/// of the pool is settled, and the pool is then marked; `Ok(false)` where
/// some bet is not, and nothing is changed. No funds move either way.
pub fn close_pool(ctx: &mut SettleAndPayout) -> (r: Result<bool, MyLotteryError>)
    ensures
        r == old(ctx)@.closing(),
        final(ctx)@ == old(ctx)@.after_closing(),
        !(r == Ok::<bool, MyLotteryError>(true)) ==> *final(ctx) == *old(ctx),
        old(ctx).lottery_pool.is_settled ==> r == Err::<bool, MyLotteryError>(
            MyLotteryError::AlreadySettled,
        ),
{
    if ctx.lottery_pool.is_settled {
        return Err(MyLotteryError::AlreadySettled);
    }
    if ctx.admin != ctx.lottery_pool.admin {
        return Err(MyLotteryError::Unauthorized);
    }
    if !are_bets_of_pool(&ctx.bet_accounts, &ctx.lottery_pool, &ctx.lottery_pool_key) {
        return Err(MyLotteryError::AccountMismatch);
    }
    if !all_settled_already(&ctx.bet_accounts) {
        return Ok(false);
    }
    ctx.lottery_pool.is_settled = true;
    Ok(true)
}

} // verus!
