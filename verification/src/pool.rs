//! Opening a pool for a match.

use vstd::prelude::*;
use crate::address::Address;
use crate::error::MyLotteryError;
use crate::state::LotteryPool;

verus! {

/// What the opening of a pool works on.
#[derive(Clone, Copy, Debug, PartialEq, Eq)]
pub struct CreateLotteryPool {
    /// The record that the host has made room for, keyed by the match.
    pub lottery_pool: LotteryPool,
    /// The caller, as the host has verified it; it becomes the pool's
    /// administrator.
    pub admin: Address,
}

impl CreateLotteryPool {
    /// The pool as it is opened: nothing staked, not settled, and the caller
    /// as its administrator.
    pub open spec fn opened(&self, match_id: u64, end_timestamp: i64) -> LotteryPool {
        LotteryPool {
            match_id,
            end_timestamp,
            total_bet_amount: 0,
            is_settled: false,
            admin: self.admin,
        }
    }
}

/// Opens the pool of match `match_id`, which takes bets until
/// `end_timestamp`. Whatever the record held before is overwritten; that a
/// match gets one pool only is the host's to see to. Opening never fails.
pub fn create_lottery_pool(ctx: &mut CreateLotteryPool, match_id: u64, end_timestamp: i64) -> (r:
    Result<(), MyLotteryError>)
    ensures
        r == Ok::<(), MyLotteryError>(()),
        final(ctx).lottery_pool == old(ctx).opened(match_id, end_timestamp),
        final(ctx).admin == old(ctx).admin,
{
    ctx.lottery_pool.match_id = match_id;
    ctx.lottery_pool.end_timestamp = end_timestamp;
    ctx.lottery_pool.total_bet_amount = 0;
    ctx.lottery_pool.is_settled = false;
    ctx.lottery_pool.admin = ctx.admin;
    Ok(())
}

} // verus!
