//! The custody record and the two transitions of its state machine.
//!
//! A record is *vacant* while it holds nothing (it was never funded, or it
//! was closed by a withdrawal) and *open* while it holds funds. The first
//! deposit into a vacant record names the parties and fixes the unlock time;
//! later deposits only add to the amount; a withdrawal closes the record.

use vstd::prelude::*;
use crate::error::ErrorCode;
use crate::identity::Identity;
use crate::identity::IDENTITY_LEN;

verus! {

/// Seconds between the first deposit into a record and the earliest withdrawal.
pub const LOCK_DELAY: i64 = 60;

/// Bytes that a stored record takes: two identities, the amount, the unlock
/// time and the completion flag.
pub const INIT_SPACE: usize = IDENTITY_LEN + IDENTITY_LEN + 8 + 8 + 1;

/// Where a record stands in its life.
#[derive(Clone, Copy, Debug, PartialEq, Eq, Structural)]
pub enum Phase {
    /// Nothing is held and nothing was withdrawn: the record was never
    /// funded.
    Uninitialized,
    /// Funds are held.
    Open,
    /// The funds were withdrawn.
    Closed,
}

/// One escrow: who funded it, who may receive it, how much it holds, from
/// when it may be withdrawn, and whether it has been withdrawn.
#[derive(Clone, Copy, Debug, PartialEq, Eq)]
pub struct EscrowAccount {
    /// The party that funded the record.
    pub deposit: Identity,
    /// The party meant to receive the funds.
    pub pda_receiver: Identity,
    /// Units held in custody.
    pub amount: u64,
    /// Earliest time of a withdrawal.
    pub timestamp: i64,
    /// Set once the record has been withdrawn.
    pub is_completed: bool,
}

impl EscrowAccount {
    /// A completed record holds nothing.
    pub open spec fn wf(&self) -> bool {
        self.is_completed ==> self.amount == 0
    }

    /// The record holds nothing exactly while it is fresh or completed.
    ///
    /// A fresh record is so, and every deposit and every withdrawal keeps a
    /// record so.
    pub open spec fn is_consistent(&self) -> bool {
        self.amount == 0 <==> (self.is_completed || *self == EscrowAccount::spec_new())
    }

    /// The record holds nothing: the next deposit names its parties anew.
    pub open spec fn is_vacant(&self) -> bool {
        self.amount == 0
    }

    /// Where the record stands: closed once it is completed, open while it
    /// holds funds, uninitialized otherwise.
    pub open spec fn spec_phase(&self) -> Phase {
        if self.is_completed {
            Phase::Closed
        } else if self.amount > 0 {
            Phase::Open
        } else {
            Phase::Uninitialized
        }
    }

    /// The record as it is before anything was stored in it: every field
    /// zero.
    pub open spec fn spec_new() -> EscrowAccount {
        EscrowAccount {
            deposit: Identity::spec_zero(),
            pda_receiver: Identity::spec_zero(),
            amount: 0,
            timestamp: 0,
            is_completed: false,
        }
    }

    /// The record after `depositor` has put `amount` into it at time `now`
    /// for `receiver`, or the reason for which the deposit is refused.
    ///
    /// A deposit of nothing is refused. Into a vacant record a deposit
    /// writes both parties and the unlock time, `now + LOCK_DELAY`; into an
    /// open one it only adds `amount`.
    pub open spec fn after_deposit(
        self,
        depositor: Identity,
        receiver: Identity,
        amount: u64,
        now: i64,
    ) -> Result<EscrowAccount, ErrorCode> {
        if amount == 0 {
            Err(ErrorCode::NoFundsAvailable)
        } else if self.amount == 0 {
            if now + LOCK_DELAY > i64::MAX {
                Err(ErrorCode::Overflow)
            } else {
                Ok(
                    EscrowAccount {
                        deposit: depositor,
                        pda_receiver: receiver,
                        amount,
                        timestamp: (now + LOCK_DELAY) as i64,
                        is_completed: false,
                    },
                )
            }
        } else if self.amount + amount > u64::MAX {
            Err(ErrorCode::Overflow)
        } else {
            Ok(EscrowAccount { amount: (self.amount + amount) as u64, ..self })
        }
    }

    /// The record after `signer` has withdrawn `amount` from it at time
    /// `now`, or the reason for which the withdrawal is refused.
    ///
    /// The conditions are tested in the order in which they stand here, and
    /// the first that fails gives the error. Any amount that the record
    /// covers closes it: nothing stays behind.
    pub open spec fn after_withdraw(self, signer: Identity, amount: u64, now: i64) -> Result<
        EscrowAccount,
        ErrorCode,
    > {
        if amount == 0 {
            Err(ErrorCode::NoFundsAvailable)
        } else if self.is_completed {
            Err(ErrorCode::NoFundsAvailable)
        } else if signer != self.deposit {
            Err(ErrorCode::UnauthorizedReceiver)
        } else if now < self.timestamp {
            Err(ErrorCode::LockNotElapsed)
        } else if amount > self.amount {
            Err(ErrorCode::InsufficientFunds)
        } else {
            Ok(EscrowAccount { amount: 0, is_completed: true, ..self })
        }
    }

    /// Where the record stands in its life.
    #[verifier::when_used_as_spec(spec_phase)]
    pub fn phase(&self) -> (phase: Phase)
        ensures
            phase == self.spec_phase(),
    {
        if self.is_completed {
            Phase::Closed
        } else if self.amount > 0 {
            Phase::Open
        } else {
            Phase::Uninitialized
        }
    }

    /// A record that nobody has funded.
    #[verifier::when_used_as_spec(spec_new)]
    pub fn new() -> (record: EscrowAccount)
        ensures
            record == EscrowAccount::spec_new(),
    {
        EscrowAccount {
            deposit: Identity::zero(),
            pda_receiver: Identity::zero(),
            amount: 0,
            timestamp: 0,
            is_completed: false,
        }
    }
}

impl Default for EscrowAccount {
    fn default() -> (record: EscrowAccount)
        ensures
            record == EscrowAccount::spec_new(),
    {
        EscrowAccount::new()
    }
}

} // verus!
