//! A pool together with its bets, as contracts speak of them.

use vstd::prelude::*;
use crate::address::Address;
use crate::bet::PlaceBet;
use crate::oracle::SettleBet;
use crate::port::TransferOutcome;
use crate::stakes::staked;
use crate::state::{BetAccount, BetOption, LotteryPool, OracleRecord};

verus! {

/// Whether one of `bets` is settled.
pub open spec fn some_settled(bets: Seq<BetAccount>) -> bool {
    exists|i: int| 0 <= i < bets.len() && (#[trigger] bets[i]).is_settled
}

/// Whether every one of `bets` is settled.
pub open spec fn every_settled(bets: Seq<BetAccount>) -> bool {
    forall|i: int| 0 <= i < bets.len() ==> (#[trigger] bets[i]).is_settled
}

/// Whether every one of `bets` names `pool_key` as its pool.
pub open spec fn all_of_pool(bets: Seq<BetAccount>, pool_key: Address) -> bool {
    forall|i: int| 0 <= i < bets.len() ==> (#[trigger] bets[i]).lottery_pool == pool_key
}

/// Whether no participant has two bets among `bets`.
pub open spec fn one_bet_each(bets: Seq<BetAccount>) -> bool {
    forall|i: int, j: int|
        0 <= i < j < bets.len() ==> (#[trigger] bets[i]).bettor != (#[trigger] bets[j]).bettor
}

/// Whether every one of `bets` holds a stake, as every bet does once it is
/// placed.
pub open spec fn all_placed(bets: Seq<BetAccount>) -> bool {
    forall|i: int| 0 <= i < bets.len() ==> (#[trigger] bets[i]).bet_amount > 0
}

/// Whether `bets` are the bets of the pool `pool` kept under `pool_key`, each
/// of them once: all name the pool and hold a stake, no participant comes
/// twice, and the stakes add up to the pool's total.
pub open spec fn bets_of_pool(bets: Seq<BetAccount>, pool: LotteryPool, pool_key: Address) -> bool {
    &&& all_of_pool(bets, pool_key)
    &&& all_placed(bets)
    &&& one_bet_each(bets)
    &&& staked(bets) == pool.total_bet_amount
}

/// A pool, the key under which the host keeps it, the bets placed on it, in
/// the order in which they were placed, and the caller of the operation at
/// hand.
pub struct PoolBook {
    pub lottery_pool: LotteryPool,
    pub lottery_pool_key: Address,
    pub bet_accounts: Seq<BetAccount>,
    pub admin: Address,
}

/// One call of `place_bet` as it reaches the ledger: who bets, when, how much
/// and on what, and what the transfer port answers.
pub struct BetRequest {
    pub bettor: Address,
    pub now: i64,
    pub bet_amount: u64,
    pub bet_option: BetOption,
    pub moved: TransferOutcome,
}

impl PoolBook {
    /// Whether the book is one that the ledger's operations can have
    /// written: its bets are the pool's bets, each of them once.
    pub open spec fn consistent(self) -> bool {
        bets_of_pool(self.bet_accounts, self.lottery_pool, self.lottery_pool_key)
    }

    /// Whether `bettor` has a bet in the book.
    pub open spec fn has_bet(self, bettor: Address) -> bool {
        exists|i: int|
            0 <= i < self.bet_accounts.len() && (#[trigger] self.bet_accounts[i]).bettor == bettor
    }

    /// The slot that the host keeps for `bettor` and this pool: the
    /// participant's bet where there is one, else a vacant slot.
    pub open spec fn slot(self, bettor: Address) -> BetAccount {
        if self.has_bet(bettor) {
            let i = choose|i: int|
                0 <= i < self.bet_accounts.len() && (#[trigger] self.bet_accounts[i]).bettor
                    == bettor;
            self.bet_accounts[i]
        } else {
            BetAccount {
                bettor,
                bet_amount: 0,
                bet_option: BetOption::HomeWin,
                lottery_pool: self.lottery_pool_key,
                is_settled: false,
            }
        }
    }

    /// What `place_bet` works on when `bettor` bets on this pool.
    pub open spec fn placing(self, bettor: Address) -> PlaceBet {
        PlaceBet {
            bet_account: self.slot(bettor),
            lottery_pool: self.lottery_pool,
            lottery_pool_key: self.lottery_pool_key,
            bettor,
        }
    }

    /// The book after one call of `place_bet`: where the call succeeds, the
    /// pool as the call leaves it and the new bet behind the others; where it
    /// does not, the book as it was.
    pub open spec fn place(self, request: BetRequest) -> PoolBook {
        let ctx = self.placing(request.bettor);
        if ctx.outcome(request.now, request.bet_amount, request.moved) is Ok {
            let after = ctx.recorded(request.bet_amount, request.bet_option);
            PoolBook {
                lottery_pool: after.lottery_pool,
                bet_accounts: self.bet_accounts.push(after.bet_account),
                ..self
            }
        } else {
            self
        }
    }

    /// What `settle_bet` works on when the bet at place `i` is settled.
    pub open spec fn settling(self, i: int) -> SettleBet {
        SettleBet {
            lottery_pool: self.lottery_pool,
            lottery_pool_key: self.lottery_pool_key,
            bet_account: self.bet_accounts[i],
            admin: self.admin,
        }
    }

    /// The book after one call of `settle_bet` on the bet at place `i`.
    pub open spec fn settle_one(
        self,
        i: int,
        oracle: OracleRecord,
        moved: TransferOutcome,
    ) -> PoolBook {
        let after = self.settling(i).after(oracle, moved);
        PoolBook {
            lottery_pool: after.lottery_pool,
            bet_accounts: self.bet_accounts.update(i, after.bet_account),
            ..self
        }
    }

    /// The book after the calls `requests`, made one after the other.
    pub open spec fn place_all(self, requests: Seq<BetRequest>) -> PoolBook
        decreases requests.len(),
    {
        if requests.len() == 0 {
            self
        } else {
            self.place_all(requests.drop_last()).place(requests.last())
        }
    }
}

} // verus!
