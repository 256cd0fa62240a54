//! The operations of the ledger, gathered in one place.

pub use crate::bet::place_bet;
pub use crate::close::close_pool;
pub use crate::oracle::settle_bet;
pub use crate::pool::create_lottery_pool;
pub use crate::settle::settle_and_payout;
