//! A betting ledger for match outcomes.
//!
//! A pool is opened for one match, takes stakes until its deadline, and is
//! then settled: either at once for every bet, the whole pool shared out
//! among the winners in proportion to their stakes, or bet by bet against an
//! oracle's record, at fixed odds.
//!
//! The ledger never moves funds itself. Each operation comes in two parts: a
//! decision, which says which transfers the operation asks of the host's
//! transfer port, and the transition, which takes the port's answer and
//! either records the whole operation or leaves every record as it was.

pub mod address;
pub mod bet;
pub mod book;
mod checks;
pub mod close;
pub mod error;
pub mod laws;
pub mod lottery;
pub mod oracle;
pub mod payout;
pub mod pool;
pub mod port;
pub mod settle;
pub mod stakes;
pub mod state;

pub use address::Address;
pub use bet::{place_bet, PlaceBet};
pub use book::PoolBook;
pub use close::close_pool;
pub use error::MyLotteryError;
pub use oracle::{settle_bet, SettleBet};
pub use payout::{fixed_odds_payout, proportional_payout, FIXED_ODDS_MULTIPLIER};
pub use pool::{create_lottery_pool, CreateLotteryPool};
pub use port::{Transfer, TransferOutcome};
pub use settle::{settle_and_payout, SettleAndPayout};
pub use state::{BetAccount, BetOption, LotteryPool, OracleRecord};
