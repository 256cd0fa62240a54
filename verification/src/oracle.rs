//! Settling one bet against an oracle's record, at fixed odds.
//!
//! A bet that chose the outcome which the oracle reports is paid its stake
//! times `FIXED_ODDS_MULTIPLIER`; any other bet is paid nothing. Either way
//! the bet is then settled, once and for all. Bets are settled one by one, in
//! any order, and the pool's own flag is left as it is: `close_pool` sets it
//! once every bet of the pool is settled.

use vstd::prelude::*;
use crate::address::Address;
use crate::error::MyLotteryError;
use crate::payout::{fixed_odds_payout, fixed_odds_return};
use crate::port::{Transfer, TransferOutcome};
use crate::state::{BetAccount, LotteryPool, OracleRecord};

verus! {

/// What the settlement of one bet works on.
#[derive(Clone, Copy, Debug, PartialEq, Eq)]
pub struct SettleBet {
    /// The pool that the bet is said to belong to.
    pub lottery_pool: LotteryPool,
    /// The key under which the host keeps the pool, and which holds its funds.
    pub lottery_pool_key: Address,
    /// The bet to settle.
    pub bet_account: BetAccount,
    /// The caller, as the host has verified it.
    pub admin: Address,
}

impl SettleBet {
    /// What the bet is paid when the oracle reports `oracle`.
    pub open spec fn payout_amount(&self, oracle: OracleRecord) -> int {
        fixed_odds_return(
            self.bet_account.bet_amount as int,
            self.bet_account.bet_option,
            oracle.final_outcome,
        )
    }

    /// Why the settlement is refused, if it is. The reasons are looked for in
    /// this order: the pool or the bet is settled already; the caller is not
    /// the pool's administrator; the bet names another pool, or holds no
    /// stake and so is no bet; the oracle's record is about another match;
    /// the record was observed before the pool's deadline; the payout is too
    /// large to be written down.
    pub open spec fn refusal(&self, oracle: OracleRecord) -> Option<MyLotteryError> {
        if self.lottery_pool.is_settled || self.bet_account.is_settled {
            Some(MyLotteryError::AlreadySettled)
        } else if self.admin != self.lottery_pool.admin {
            Some(MyLotteryError::Unauthorized)
        } else if self.bet_account.lottery_pool != self.lottery_pool_key
            || self.bet_account.bet_amount == 0 {
            Some(MyLotteryError::AccountMismatch)
        } else if oracle.match_id != self.lottery_pool.match_id {
            Some(MyLotteryError::MismatchedEvent)
        } else if oracle.observed_at < self.lottery_pool.end_timestamp {
            Some(MyLotteryError::StaleOracleData)
        } else if self.payout_amount(oracle) > u64::MAX {
            Some(MyLotteryError::TransferFailure)
        } else {
            None
        }
    }

    /// The transfer that the settlement asks for: the payout, from the pool
    /// to the bettor, where anything is paid.
    pub open spec fn transfer(&self, oracle: OracleRecord) -> Option<Transfer> {
        if self.payout_amount(oracle) > 0 {
            Some(
                Transfer {
                    from: self.lottery_pool_key,
                    to: self.bet_account.bettor,
                    amount: self.payout_amount(oracle) as u64,
                },
            )
        } else {
            None
        }
    }

    /// How the settlement ends when the transfer port answers `moved`: the
    /// reason for which it is refused, `TransferFailure` where a payout was
    /// due and the port did not move it, else the transfer that was made, if
    /// one was due.
    pub open spec fn outcome(&self, oracle: OracleRecord, moved: TransferOutcome) -> Result<
        Option<Transfer>,
        MyLotteryError,
    > {
        match self.refusal(oracle) {
            Some(e) => Err(e),
            None => if self.transfer(oracle) is Some && moved == TransferOutcome::Failed {
                Err(MyLotteryError::TransferFailure)
            } else {
                Ok(self.transfer(oracle))
            },
        }
    }

    /// The records once the bet is settled: the bet is marked, and nothing
    /// else is changed.
    pub open spec fn resolved(&self) -> SettleBet {
        SettleBet { bet_account: BetAccount { is_settled: true, ..self.bet_account }, ..*self }
    }

    /// The records after the settlement: with the bet settled where it
    /// succeeds, as they were where it does not.
    pub open spec fn after(&self, oracle: OracleRecord, moved: TransferOutcome) -> SettleBet {
        if self.outcome(oracle, moved) is Ok {
            self.resolved()
        } else {
            *self
        }
    }

    /// Decides the settlement without recording it: the reason for which it
    /// is refused, or the transfer that pays the bet, `None` where the bet is
    /// paid nothing.
    pub fn payout(&self, oracle: &OracleRecord) -> (r: Result<Option<Transfer>, MyLotteryError>)
        ensures
            r == match self.refusal(*oracle) {
                Some(e) => Err::<Option<Transfer>, MyLotteryError>(e),
                None => Ok(self.transfer(*oracle)),
            },
    {
        if self.lottery_pool.is_settled || self.bet_account.is_settled {
            return Err(MyLotteryError::AlreadySettled);
        }
        if self.admin != self.lottery_pool.admin {
            return Err(MyLotteryError::Unauthorized);
        }
        if self.bet_account.lottery_pool != self.lottery_pool_key
            || self.bet_account.bet_amount == 0 {
            return Err(MyLotteryError::AccountMismatch);
        }
        if oracle.match_id != self.lottery_pool.match_id {
            return Err(MyLotteryError::MismatchedEvent);
        }
        if oracle.observed_at < self.lottery_pool.end_timestamp {
            return Err(MyLotteryError::StaleOracleData);
        }
        match fixed_odds_payout(
            self.bet_account.bet_amount,
            self.bet_account.bet_option,
            oracle.final_outcome,
        ) {
            None => Err(MyLotteryError::TransferFailure),
            Some(amount) => if amount > 0 {
                Ok(
                    Some(
                        Transfer {
                            from: self.lottery_pool_key,
                            to: self.bet_account.bettor,
                            amount,
                        },
                    ),
                )
            } else {
                Ok(None)
            },
        }
    }
}

/// Settles the bet against the oracle's record, given the transfer port's
/// answer `moved` on the transfer that `SettleBet::payout` names.
///
/// Where the settlement is refused, or a payout was due and the port did not
/// move it, nothing is changed. Else the bet is marked settled and the
/// transfer that was made is returned; a bet that lost is settled with no
/// transfer, which is no failure. `moved` is not looked at where no transfer
/// is asked for.
pub fn settle_bet(ctx: &mut SettleBet, oracle: &OracleRecord, moved: TransferOutcome) -> (r: Result<
    Option<Transfer>,
    MyLotteryError,
>)
    ensures
        r == old(ctx).outcome(*oracle, moved),
        *final(ctx) == old(ctx).after(*oracle, moved),
        old(ctx).lottery_pool.is_settled || old(ctx).bet_account.is_settled ==> r == Err::<
            Option<Transfer>,
            MyLotteryError,
        >(MyLotteryError::AlreadySettled) && *final(ctx) == *old(ctx),
        oracle.observed_at < old(ctx).lottery_pool.end_timestamp || oracle.match_id != old(
            ctx,
        ).lottery_pool.match_id ==> r is Err && *final(ctx) == *old(ctx),
{
    let transfer = match ctx.payout(oracle) {
        Ok(transfer) => transfer,
        Err(e) => {
            return Err(e);
        },
    };
    if transfer.is_some() {
        match moved {
            TransferOutcome::Failed => {
                return Err(MyLotteryError::TransferFailure);
            },
            TransferOutcome::Completed => {},
        }
    }
    ctx.bet_account.is_settled = true;
    Ok(transfer)
}

} // verus!
