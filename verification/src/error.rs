//! The reasons for which a transition is refused.

use vstd::prelude::*;

verus! {

/// Why a deposit or a withdrawal did not take place.
///
/// Every refusal names the one condition that failed, so that a caller can
/// tell a request worth repeating later from one that never will succeed.
#[derive(Clone, Copy, Debug, PartialEq, Eq, Structural)]
pub enum ErrorCode {
    /// A deposit or a withdrawal of nothing was asked for, or the record to
    /// withdraw from is already closed.
    NoFundsAvailable,
    /// The signer of a withdrawal is not the depositor that the record names.
    UnauthorizedReceiver,
    /// The depositor could not fund the deposit, or the record holds less
    /// than the withdrawal asks for.
    InsufficientFunds,
    /// The accumulated amount, or the unlock time, cannot be represented.
    Overflow,
    /// The withdrawal came before the record's unlock time.
    LockNotElapsed,
    /// No room could be had for a new record.
    StorageFailure,
    /// The ledger refused to move the funds of a withdrawal.
    TransferFailure,
}

impl ErrorCode {
    /// The text shown to a caller for each error.
    pub open spec fn spec_message(self) -> Seq<char> {
        match self {
            ErrorCode::NoFundsAvailable => "No funds available."@,
            ErrorCode::UnauthorizedReceiver => "Unauthorized receiver."@,
            ErrorCode::InsufficientFunds => "Insufficient funds."@,
            ErrorCode::Overflow => "Amount overflow."@,
            ErrorCode::LockNotElapsed => "Lock has not elapsed."@,
            ErrorCode::StorageFailure => "Storage failure."@,
            ErrorCode::TransferFailure => "Transfer failure."@,
        }
    }

    /// The text shown to a caller for this error.
    pub fn message(&self) -> (text: &'static str)
        ensures
            text@ == self.spec_message(),
    {
        match self {
            ErrorCode::NoFundsAvailable => "No funds available.",
            ErrorCode::UnauthorizedReceiver => "Unauthorized receiver.",
            ErrorCode::InsufficientFunds => "Insufficient funds.",
            ErrorCode::Overflow => "Amount overflow.",
            ErrorCode::LockNotElapsed => "Lock has not elapsed.",
            ErrorCode::StorageFailure => "Storage failure.",
            ErrorCode::TransferFailure => "Transfer failure.",
        }
    }
}

} // verus!
