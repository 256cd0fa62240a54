//! Why an operation on the ledger is refused.

use vstd::prelude::*;

verus! {

/// The reasons for which the ledger refuses an operation.
///
/// A refused operation changes no record and asks for no transfer.
#[derive(Clone, Copy, Debug, PartialEq, Eq, Structural)]
pub enum MyLotteryError {
    /// A bet came at or after the pool's deadline.
    BettingPeriodEnded,
    /// The pool, or the bet, has been settled before.
    AlreadySettled,
    /// The participant has a bet on this pool already.
    AlreadyBet,
    /// A bet was handed in with a pool that it does not belong to.
    AccountMismatch,
    /// The oracle's record is about another match.
    MismatchedEvent,
    /// The oracle's record was observed before the pool's deadline.
    StaleOracleData,
    /// The transfer port did not move the funds.
    TransferFailure,
    /// The caller is not the pool's administrator.
    Unauthorized,
}

impl MyLotteryError {
    /// The sentence that goes with the reason.
    pub open spec fn text(self) -> Seq<char> {
        match self {
            MyLotteryError::BettingPeriodEnded => "The betting period has ended."@,
            MyLotteryError::AlreadySettled => "The lottery has already been settled."@,
            MyLotteryError::AlreadyBet => "You have already placed a bet for this match."@,
            MyLotteryError::AccountMismatch => "The bet does not belong to this lottery pool."@,
            MyLotteryError::MismatchedEvent => "The oracle record is about another match."@,
            MyLotteryError::StaleOracleData => {
                "The oracle record is older than the betting deadline."@
            },
            MyLotteryError::TransferFailure => "The funds could not be moved."@,
            MyLotteryError::Unauthorized => "Only the administrator of the pool may settle it."@,
        }
    }

    /// The sentence that tells a caller why the operation was refused.
    pub fn message(&self) -> (text: &'static str)
        ensures
            text@ == self.text(),
    {
        match self {
            MyLotteryError::BettingPeriodEnded => "The betting period has ended.",
            MyLotteryError::AlreadySettled => "The lottery has already been settled.",
            MyLotteryError::AlreadyBet => "You have already placed a bet for this match.",
            MyLotteryError::AccountMismatch => "The bet does not belong to this lottery pool.",
            MyLotteryError::MismatchedEvent => "The oracle record is about another match.",
            MyLotteryError::StaleOracleData => {
                "The oracle record is older than the betting deadline."
            },
            MyLotteryError::TransferFailure => "The funds could not be moved.",
            MyLotteryError::Unauthorized => "Only the administrator of the pool may settle it.",
        }
    }
}

} // verus!
