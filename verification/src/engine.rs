//! The two operations of the escrow: `deposit` and `withdraw`.
//!
//! Each takes what a caller presents (the parties and the record as it
//! stands), validates the request, and either refuses it and leaves the record
//! as it was, or rewrites the record and says which funds the ledger has to
//! move. The engine moves nothing itself: the caller asks the ledger for the
//! transfer and keeps the new record only if the ledger carried it out.

use vstd::prelude::*;
use crate::error::ErrorCode;
use crate::identity::Identity;
use crate::ledger::Transfer;
use crate::record::EscrowAccount;
use crate::record::LOCK_DELAY;

verus! {

/// What a deposit works on.
#[derive(Clone, Copy, Debug, PartialEq, Eq)]
pub struct Deposit {
    /// The caller, who funds the deposit.
    pub depositor: Identity,
    /// The identity under which the record is kept and its funds are held.
    pub escrow_key: Identity,
    /// The record as it stands.
    pub escrow_account: EscrowAccount,
}

/// What a withdrawal works on.
#[derive(Clone, Copy, Debug, PartialEq, Eq)]
pub struct Withdraw {
    /// The caller, who asks for the release.
    pub signer: Identity,
    /// The party to which the funds go.
    pub receiver: Identity,
    /// The identity under which the record is kept and its funds are held.
    pub escrow_key: Identity,
    /// The record as it stands.
    pub escrow_account: EscrowAccount,
}

/// What an observer is told of a transition that took place.
#[derive(Clone, Copy, Debug, PartialEq, Eq)]
pub enum Event {
    /// Funds went into the record kept under `escrow_key`, whose depositor
    /// is `depositor`.
    Deposited { depositor: Identity, escrow_key: Identity },
    /// `amount` went to `receiver`, and the record was closed.
    Withdrawn { receiver: Identity, amount: u64 },
}

/// What follows from a request that passed validation.
#[derive(Clone, Copy, Debug, PartialEq, Eq)]
pub struct Effect {
    /// The movement of funds to ask the ledger for.
    pub transfer: Transfer,
    /// What to announce once the ledger has moved them.
    pub event: Event,
}

impl Deposit {
    /// What a deposit of `amount` at `current_time` leads to: the record to
    /// keep and the funds to move, or the reason for the refusal.
    pub open spec fn outcome(self, pda_receiver: Identity, amount: u64, current_time: i64) -> Result<
        (EscrowAccount, Effect),
        ErrorCode,
    > {
        match self.escrow_account.after_deposit(self.depositor, pda_receiver, amount, current_time) {
            Ok(next) => Ok(
                (
                    next,
                    Effect {
                        transfer: Transfer { from: self.depositor, to: self.escrow_key, amount },
                        event: Event::Deposited {
                            depositor: next.deposit,
                            escrow_key: self.escrow_key,
                        },
                    },
                ),
            ),
            Err(e) => Err(e),
        }
    }
}

impl Withdraw {
    /// What a withdrawal of `amount` at `current_time` leads to: the record
    /// to keep and the funds to move, or the reason for the refusal.
    pub open spec fn outcome(self, amount: u64, current_time: i64) -> Result<
        (EscrowAccount, Effect),
        ErrorCode,
    > {
        match self.escrow_account.after_withdraw(self.signer, amount, current_time) {
            Ok(next) => Ok(
                (
                    next,
                    Effect {
                        transfer: Transfer { from: self.escrow_key, to: self.receiver, amount },
                        event: Event::Withdrawn { receiver: self.receiver, amount },
                    },
                ),
            ),
            Err(e) => Err(e),
        }
    }
}

/// Puts `amount` into the record of `ctx` on behalf of `ctx.depositor`.
///
/// A vacant record takes the depositor and `pda_receiver` as its parties and
/// `current_time + LOCK_DELAY` as its unlock time; an open record keeps its
/// parties and its unlock time and only grows by `amount`. The result names
/// the transfer from the depositor into custody. The deposit is refused, and
/// `ctx` left as it was, with `NoFundsAvailable` when `amount` is zero, and
/// with `Overflow` when the new amount or the unlock time cannot be
/// represented.
pub fn deposit(ctx: &mut Deposit, pda_receiver: Identity, amount: u64, current_time: i64) -> (r:
    Result<Effect, ErrorCode>)
    ensures
        match old(ctx).outcome(pda_receiver, amount, current_time) {
            Ok((next, effect)) => {
                &&& r == Ok::<Effect, ErrorCode>(effect)
                &&& *final(ctx) == (Deposit { escrow_account: next, ..*old(ctx) })
            },
            Err(e) => r == Err::<Effect, ErrorCode>(e) && *final(ctx) == *old(ctx),
        },
        amount == 0 ==> r == Err::<Effect, ErrorCode>(ErrorCode::NoFundsAvailable) && *final(ctx)
            == *old(ctx),
        old(ctx).escrow_account.wf() ==> final(ctx).escrow_account.wf(),
        old(ctx).escrow_account.is_consistent() ==> final(ctx).escrow_account.is_consistent(),
{
    if amount == 0 {
        return Err(ErrorCode::NoFundsAvailable);
    }
    if ctx.escrow_account.amount == 0 {
        let unlock_time: i64 = match current_time.checked_add(LOCK_DELAY) {
            Some(t) => t,
            None => { return Err(ErrorCode::Overflow); },
        };
        ctx.escrow_account.deposit = ctx.depositor;
        ctx.escrow_account.pda_receiver = pda_receiver;
        ctx.escrow_account.timestamp = unlock_time;
        ctx.escrow_account.is_completed = false;
        ctx.escrow_account.amount = amount;
    } else {
        let total: u64 = match ctx.escrow_account.amount.checked_add(amount) {
            Some(t) => t,
            None => { return Err(ErrorCode::Overflow); },
        };
        ctx.escrow_account.amount = total;
    }
    Ok(
        Effect {
            transfer: Transfer { from: ctx.depositor, to: ctx.escrow_key, amount },
            event: Event::Deposited {
                depositor: ctx.escrow_account.deposit,
                escrow_key: ctx.escrow_key,
            },
        },
    )
}

/// Releases `amount` from the record of `ctx` to `ctx.receiver`.
///
/// The withdrawal takes place exactly when `amount` is positive, the record
/// is not completed, `ctx.signer` is the record's depositor, `current_time`
/// has reached the unlock time and the record covers `amount`. The record
/// is then closed, whatever part of it `amount` was, and the result names the
/// transfer out of custody. Otherwise `ctx` stays as it was and the error
/// names the first of these conditions that failed.
pub fn withdraw(ctx: &mut Withdraw, amount: u64, current_time: i64) -> (r: Result<
    Effect,
    ErrorCode,
>)
    ensures
        match old(ctx).outcome(amount, current_time) {
            Ok((next, effect)) => {
                &&& r == Ok::<Effect, ErrorCode>(effect)
                &&& *final(ctx) == (Withdraw { escrow_account: next, ..*old(ctx) })
            },
            Err(e) => r == Err::<Effect, ErrorCode>(e) && *final(ctx) == *old(ctx),
        },
        old(ctx).escrow_account.wf() ==> final(ctx).escrow_account.wf(),
        old(ctx).escrow_account.is_consistent() ==> final(ctx).escrow_account.is_consistent(),
{
    if amount == 0 {
        return Err(ErrorCode::NoFundsAvailable);
    }
    if ctx.escrow_account.is_completed {
        return Err(ErrorCode::NoFundsAvailable);
    }
    if ctx.signer != ctx.escrow_account.deposit {
        return Err(ErrorCode::UnauthorizedReceiver);
    }
    if current_time < ctx.escrow_account.timestamp {
        return Err(ErrorCode::LockNotElapsed);
    }
    if amount > ctx.escrow_account.amount {
        return Err(ErrorCode::InsufficientFunds);
    }
    ctx.escrow_account.is_completed = true;
    ctx.escrow_account.amount = 0;
    Ok(
        Effect {
            transfer: Transfer { from: ctx.escrow_key, to: ctx.receiver, amount },
            event: Event::Withdrawn { receiver: ctx.receiver, amount },
        },
    )
}

} // verus!
