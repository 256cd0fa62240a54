//! What the ledger asks of the host's transfer port, and what the port answers.

use vstd::prelude::*;
use crate::address::Address;

verus! {

/// A movement of funds that an operation asks the transfer port to make.
#[derive(Clone, Copy, Debug, PartialEq, Eq)]
pub struct Transfer {
    /// The balance that the funds leave.
    pub from: Address,
    /// The balance that the funds reach.
    pub to: Address,
    /// How much is moved; never 0.
    pub amount: u64,
}

/// The port's answer on the transfers of one operation, taken as a whole.
#[derive(Clone, Copy, Debug, PartialEq, Eq, Structural)]
pub enum TransferOutcome {
    /// Every transfer asked for was made.
    Completed,
    /// No transfer was made.
    Failed,
}

/// The sum of the amounts of `transfers`.
pub open spec fn transferred(transfers: Seq<Transfer>) -> int
    decreases transfers.len(),
{
    if transfers.len() == 0 {
        0
    } else {
        transferred(transfers.drop_last()) + transfers.last().amount
    }
}

} // verus!
