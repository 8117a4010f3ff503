//! Whole operations on a store of records, with the ledger in the middle.
//!
//! An operation reads the record, validates the request, asks the ledger to
//! move the funds and stores the new record only if the ledger did. Whatever
//! goes wrong, the store is left as it was, and the ledger is asked for
//! nothing whose record could not be stored afterwards. The exclusive borrow
//! of the store for the length of the call is what keeps two operations on
//! one identity from overlapping.

use vstd::prelude::*;
use crate::engine::{deposit, withdraw, Deposit, Effect, Event, Withdraw};
use crate::error::ErrorCode;
use crate::identity::Identity;
use crate::ledger::{Transfer, TransferError};
use crate::record::EscrowAccount;
use crate::store::EscrowStore;

verus! {

/// What a deposit into `store` leads to before the ledger is asked: the
/// record to keep and the funds to move, or the reason for the refusal.
///
/// Room for the record is looked for first, so that a deposit never moves
/// funds that it then cannot account for.
pub open spec fn deposit_request(
    store: &EscrowStore,
    depositor: Identity,
    escrow_key: Identity,
    pda_receiver: Identity,
    amount: u64,
    current_time: i64,
) -> Result<(EscrowAccount, Effect), ErrorCode> {
    if !store.has_room_for(escrow_key) {
        Err(ErrorCode::StorageFailure)
    } else {
        (Deposit { depositor, escrow_key, escrow_account: store.record_at(escrow_key) }).outcome(
            pda_receiver,
            amount,
            current_time,
        )
    }
}

/// What a withdrawal from `store` leads to before the ledger is asked: the
/// record to keep and the funds to move, or the reason for the refusal.
pub open spec fn withdraw_request(
    store: &EscrowStore,
    escrow_key: Identity,
    signer: Identity,
    receiver: Identity,
    amount: u64,
    current_time: i64,
) -> Result<(EscrowAccount, Effect), ErrorCode> {
    (Withdraw { signer, receiver, escrow_key, escrow_account: store.record_at(escrow_key) }).outcome(
        amount,
        current_time,
    )
}

/// How an operation ends once the ledger has answered.
///
/// If the ledger refused, nothing is stored and the result is `refusal`. If
/// it moved the funds, `after` is `before` with `record` under `escrow_key`,
/// and the result is `event`; unless the store has no room for the record,
/// when nothing is stored and the result is `StorageFailure`.
pub open spec fn concluded(
    before: &EscrowStore,
    after: &EscrowStore,
    escrow_key: Identity,
    record: EscrowAccount,
    event: Event,
    answer: Result<(), TransferError>,
    refusal: ErrorCode,
    r: Result<Event, ErrorCode>,
) -> bool {
    if answer is Err {
        r == Err::<Event, ErrorCode>(refusal) && after@ == before@
    } else if before.has_room_for(escrow_key) {
        r == Ok::<Event, ErrorCode>(event) && after@ == before@.insert(escrow_key, record)
    } else {
        r == Err::<Event, ErrorCode>(ErrorCode::StorageFailure) && after@ == before@
    }
}

/// Ends an operation with the ledger's answer: stores `record` under
/// `escrow_key` and reports `event` if the ledger moved the funds, and
/// reports `refusal` with the store untouched if it did not.
///
/// This is the last step of `submit_deposit` and of `submit_withdraw`, for a
/// caller that has to wait for the ledger between the steps. Such a caller
/// looks for room before it asks the ledger; if it did not and the store is
/// full, the result is `StorageFailure` and nothing is stored.
pub fn conclude(
    store: &mut EscrowStore,
    escrow_key: Identity,
    record: EscrowAccount,
    event: Event,
    answer: Result<(), TransferError>,
    refusal: ErrorCode,
) -> (r: Result<Event, ErrorCode>)
    requires
        old(store).wf(),
    ensures
        final(store).wf(),
        final(store).spec_capacity() == old(store).spec_capacity(),
        concluded(old(store), final(store), escrow_key, record, event, answer, refusal, r),
        old(store).records_wf() && record.wf() ==> final(store).records_wf(),
        old(store).records_consistent() && record.is_consistent()
            ==> final(store).records_consistent(),
{
    if answer.is_err() {
        return Err(refusal);
    }
    match store.put(escrow_key, record) {
        Ok(()) => Ok(event),
        Err(e) => Err(e),
    }
}

/// Deposits `amount` from `depositor` into the record kept under
/// `escrow_key`.
///
/// The request is refused with `StorageFailure` if the record is new and the
/// store is full, and otherwise as `deposit` refuses it: with
/// `NoFundsAvailable` for a deposit of nothing, with `Overflow`. Otherwise
/// `ledger` is asked once, for the transfer from the depositor into custody.
/// If it answers `Ok`, the new record is stored and the event is returned;
/// if not, the result is `InsufficientFunds`. The store changes in
/// the first of these cases only.
pub fn submit_deposit<L: FnOnce(Transfer) -> Result<(), TransferError>>(
    store: &mut EscrowStore,
    depositor: Identity,
    escrow_key: Identity,
    pda_receiver: Identity,
    amount: u64,
    current_time: i64,
    ledger: L,
) -> (r: Result<Event, ErrorCode>)
    requires
        old(store).wf(),
        deposit_request(old(store), depositor, escrow_key, pda_receiver, amount, current_time)
            matches Ok((_, effect)) ==> ledger.requires((effect.transfer,)),
    ensures
        final(store).wf(),
        final(store).spec_capacity() == old(store).spec_capacity(),
        match deposit_request(old(store), depositor, escrow_key, pda_receiver, amount, current_time) {
            Ok((next, effect)) => {
                &&& old(store).has_room_for(escrow_key)
                &&& exists|answer: Result<(), TransferError>|
                    {
                        &&& #[trigger] ledger.ensures((effect.transfer,), answer)
                        &&& concluded(
                            old(store),
                            final(store),
                            escrow_key,
                            next,
                            effect.event,
                            answer,
                            ErrorCode::InsufficientFunds,
                            r,
                        )
                    }
            },
            Err(e) => r == Err::<Event, ErrorCode>(e) && final(store)@ == old(store)@,
        },
        old(store).records_wf() ==> final(store).records_wf(),
        old(store).records_consistent() ==> final(store).records_consistent(),
{
    let known = store.contains(&escrow_key);
    if !known && store.len() >= store.capacity() {
        return Err(ErrorCode::StorageFailure);
    }
    let mut ctx = Deposit { depositor, escrow_key, escrow_account: store.get_or_create(&escrow_key) };
    let effect = match deposit(&mut ctx, pda_receiver, amount, current_time) {
        Ok(effect) => effect,
        Err(e) => { return Err(e); },
    };
    let answer = ledger(effect.transfer);
    conclude(store, escrow_key, ctx.escrow_account, effect.event, answer, ErrorCode::InsufficientFunds)
}

/// Withdraws `amount` from the record kept under `escrow_key` to `receiver`,
/// at the request of `signer`.
///
/// The request is refused as `withdraw` refuses it. Otherwise `ledger` is
/// asked once, for the transfer out of custody. If it answers `Ok`, the
/// closed record is stored and the event is returned; if not, the result is
/// `TransferFailure`. The store changes in the first of these cases
/// only.
pub fn submit_withdraw<L: FnOnce(Transfer) -> Result<(), TransferError>>(
    store: &mut EscrowStore,
    escrow_key: Identity,
    signer: Identity,
    receiver: Identity,
    amount: u64,
    current_time: i64,
    ledger: L,
) -> (r: Result<Event, ErrorCode>)
    requires
        old(store).wf(),
        withdraw_request(old(store), escrow_key, signer, receiver, amount, current_time)
            matches Ok((_, effect)) ==> ledger.requires((effect.transfer,)),
    ensures
        final(store).wf(),
        final(store).spec_capacity() == old(store).spec_capacity(),
        match withdraw_request(old(store), escrow_key, signer, receiver, amount, current_time) {
            Ok((next, effect)) => {
                &&& old(store).has_room_for(escrow_key)
                &&& exists|answer: Result<(), TransferError>|
                    {
                        &&& #[trigger] ledger.ensures((effect.transfer,), answer)
                        &&& concluded(
                            old(store),
                            final(store),
                            escrow_key,
                            next,
                            effect.event,
                            answer,
                            ErrorCode::TransferFailure,
                            r,
                        )
                    }
            },
            Err(e) => r == Err::<Event, ErrorCode>(e) && final(store)@ == old(store)@,
        },
        old(store).records_wf() ==> final(store).records_wf(),
        old(store).records_consistent() ==> final(store).records_consistent(),
{
    let mut ctx = Withdraw {
        signer,
        receiver,
        escrow_key,
        escrow_account: store.get_or_create(&escrow_key),
    };
    let effect = match withdraw(&mut ctx, amount, current_time) {
        Ok(effect) => effect,
        Err(e) => { return Err(e); },
    };
    let answer = ledger(effect.transfer);
    conclude(store, escrow_key, ctx.escrow_account, effect.event, answer, ErrorCode::TransferFailure)
}

} // verus!
