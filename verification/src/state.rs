//! The records that the ledger keeps, and the oracle's record that it reads.

use vstd::prelude::*;
use crate::address::Address;

verus! {

/// The outcome of a match that a bet is placed on.
#[derive(Clone, Copy, Debug, PartialEq, Eq, Structural)]
pub enum BetOption {
    HomeWin,
    Draw,
    AwayWin,
}

/// The pool of one match.
#[derive(Clone, Copy, Debug, PartialEq, Eq)]
pub struct LotteryPool {
    /// The match that the pool is about.
    pub match_id: u64,
    /// The deadline: from this time on no bet is taken.
    pub end_timestamp: i64,
    /// The sum of the stakes of all bets placed on the pool.
    pub total_bet_amount: u64,
    /// Whether the pool has been settled. Once set, it stays set.
    pub is_settled: bool,
    /// Who may settle the pool.
    pub admin: Address,
}

/// The bet of one participant on one pool.
///
/// The record doubles as the slot that the host keeps for a participant and
/// a pool: while `bet_amount` is 0 the slot is vacant and no bet is placed.
#[derive(Clone, Copy, Debug, PartialEq, Eq)]
pub struct BetAccount {
    /// Who placed the bet.
    pub bettor: Address,
    /// The stake; positive once the bet is placed, and then never changed.
    pub bet_amount: u64,
    /// The outcome that the stake is on.
    pub bet_option: BetOption,
    /// The pool that the bet belongs to.
    pub lottery_pool: Address,
    /// Whether the bet has been resolved, paid or lost. Once set, it stays set.
    pub is_settled: bool,
}

/// What an oracle reports of a match. The ledger reads it and never writes it.
#[derive(Clone, Copy, Debug, PartialEq, Eq)]
pub struct OracleRecord {
    /// The match that the record is about.
    pub match_id: u64,
    /// How the match ended.
    pub final_outcome: BetOption,
    /// When the oracle observed the outcome.
    pub observed_at: i64,
}

} // verus!
