//! What holds of the state machine over every record and every request.

use vstd::prelude::*;
use crate::error::ErrorCode;
use crate::identity::Identity;
use crate::record::{EscrowAccount, Phase};
use crate::record::LOCK_DELAY;

verus! {

/// One deposit of a run of deposits by the same depositor.
pub struct DepositCall {
    pub pda_receiver: Identity,
    pub amount: u64,
    pub current_time: i64,
}

/// The record after `depositor` has made `calls` one after the other, or the
/// error of the first that was refused.
pub open spec fn after_deposits(
    record: EscrowAccount,
    depositor: Identity,
    calls: Seq<DepositCall>,
) -> Result<EscrowAccount, ErrorCode>
    decreases calls.len(),
{
    if calls.len() == 0 {
        Ok(record)
    } else {
        match record.after_deposit(
            depositor,
            calls[0].pda_receiver,
            calls[0].amount,
            calls[0].current_time,
        ) {
            Ok(next) => after_deposits(next, depositor, calls.drop_first()),
            Err(e) => Err(e),
        }
    }
}

/// The sum of the amounts of `calls`.
pub open spec fn total(calls: Seq<DepositCall>) -> nat
    decreases calls.len(),
{
    if calls.len() == 0 {
        0
    } else {
        calls[0].amount as nat + total(calls.drop_first())
    }
}

/// Whether every one of `calls` deposits something.
pub open spec fn all_positive(calls: Seq<DepositCall>) -> bool {
    forall|i: int| 0 <= i < calls.len() ==> (#[trigger] calls[i]).amount > 0
}

/// A run deposits something every time exactly when its first call does
/// and the rest of the run does.
proof fn all_positive_by_parts(calls: Seq<DepositCall>)
    requires
        calls.len() > 0,
    ensures
        all_positive(calls) <==> calls[0].amount > 0 && all_positive(calls.drop_first()),
{
    let rest = calls.drop_first();
    if calls[0].amount > 0 && all_positive(rest) {
        assert forall|i: int| 0 <= i < calls.len() implies (#[trigger] calls[i]).amount > 0 by {
            if i > 0 {
                assert(calls[i] == rest[i - 1]);
            }
        }
    }
    if all_positive(calls) {
        assert forall|i: int| 0 <= i < rest.len() implies (#[trigger] rest[i]).amount > 0 by {
            assert(rest[i] == calls[i + 1]);
        }
    }
}

/// Deposits into an open record add up, and change nothing else.
///
/// Whatever the receivers and times of the deposits, an open record that
/// takes them all ends with its amount raised by their sum and with its
/// parties, its unlock time and its flag as they were. The run is accepted
/// exactly when every deposit is positive and that sum fits; it fails with
/// `NoFundsAvailable` at a deposit of nothing and with `Overflow` where the
/// sum no longer fits.
pub proof fn deposits_into_open_record(
    record: EscrowAccount,
    depositor: Identity,
    calls: Seq<DepositCall>,
)
    requires
        record.amount > 0,
    ensures
        match after_deposits(record, depositor, calls) {
            Ok(last) => {
                &&& all_positive(calls)
                &&& record.amount + total(calls) <= u64::MAX
                &&& last == (EscrowAccount {
                    amount: (record.amount + total(calls)) as u64,
                    ..record
                })
            },
            Err(e) => {
                ||| e == ErrorCode::NoFundsAvailable && !all_positive(calls)
                ||| e == ErrorCode::Overflow && record.amount + total(calls) > u64::MAX
            },
        },
    decreases calls.len(),
{
    if calls.len() > 0 {
        let first = calls[0];
        let rest = calls.drop_first();
        all_positive_by_parts(calls);
        match record.after_deposit(
            depositor,
            first.pda_receiver,
            first.amount,
            first.current_time,
        ) {
            Ok(next) => {
                deposits_into_open_record(next, depositor, rest);
            },
            Err(e) => {},
        }
    }
}

/// Deposits into a vacant record add up, and the first one fixes the rest.
///
/// After any run of deposits into a record that held nothing, the record
/// holds the sum of all the amounts, is not completed, names the depositor
/// and the receiver of the first deposit, and unlocks `LOCK_DELAY` after the
/// time of the first deposit, whatever the later deposits said. The run is
/// accepted exactly when every deposit is positive and that unlock time and
/// that sum fit.
pub proof fn deposits_into_vacant_record(
    record: EscrowAccount,
    depositor: Identity,
    calls: Seq<DepositCall>,
)
    requires
        record.is_vacant(),
        calls.len() > 0,
    ensures
        match after_deposits(record, depositor, calls) {
            Ok(last) => {
                &&& all_positive(calls)
                &&& total(calls) <= u64::MAX
                &&& calls[0].current_time + LOCK_DELAY <= i64::MAX
                &&& last == (EscrowAccount {
                    deposit: depositor,
                    pda_receiver: calls[0].pda_receiver,
                    amount: total(calls) as u64,
                    timestamp: (calls[0].current_time + LOCK_DELAY) as i64,
                    is_completed: false,
                })
            },
            Err(e) => {
                ||| e == ErrorCode::NoFundsAvailable && !all_positive(calls)
                ||| e == ErrorCode::Overflow && (calls[0].current_time + LOCK_DELAY > i64::MAX
                    || total(calls) > u64::MAX)
            },
        },
{
    let first = calls[0];
    let rest = calls.drop_first();
    all_positive_by_parts(calls);
    match record.after_deposit(depositor, first.pda_receiver, first.amount, first.current_time) {
        Ok(next) => {
            deposits_into_open_record(next, depositor, rest);
        },
        Err(e) => {},
    }
}

/// Two deposits made one after the other are both counted, in either order.
///
/// If `first` and then `second` are accepted, the record holds what it held
/// before and both amounts; and so it does if `second` came before `first`.
pub proof fn serial_deposits_are_both_counted(
    record: EscrowAccount,
    depositor: Identity,
    first: DepositCall,
    second: DepositCall,
)
    ensures
        after_deposits(record, depositor, seq![first, second]) matches Ok(last) ==> last.amount
            == record.amount + first.amount + second.amount,
        after_deposits(record, depositor, seq![second, first]) matches Ok(last) ==> last.amount
            == record.amount + first.amount + second.amount,
{
    serial_pair(record, depositor, first, second);
    serial_pair(record, depositor, second, first);
}

/// A run of two deposits is the second deposit applied to what the first
/// left, and it ends with both amounts added.
proof fn serial_pair(record: EscrowAccount, depositor: Identity, a: DepositCall, b: DepositCall)
    ensures
        after_deposits(record, depositor, seq![a, b]) == match record.after_deposit(
            depositor,
            a.pda_receiver,
            a.amount,
            a.current_time,
        ) {
            Ok(next) => next.after_deposit(depositor, b.pda_receiver, b.amount, b.current_time),
            Err(e) => Err(e),
        },
        after_deposits(record, depositor, seq![a, b]) matches Ok(last) ==> last.amount
            == record.amount + a.amount + b.amount,
{
    let calls = seq![a, b];
    assert(calls[0] == a);
    assert(calls.drop_first() =~= seq![b]);
    assert(seq![b][0] == b);
    assert(seq![b].drop_first() =~= Seq::<DepositCall>::empty());
    match record.after_deposit(depositor, a.pda_receiver, a.amount, a.current_time) {
        Ok(next) => {
            reveal_with_fuel(after_deposits, 3);
            assert(after_deposits(next, depositor, seq![b]) == next.after_deposit(
                depositor,
                b.pda_receiver,
                b.amount,
                b.current_time,
            ));
        },
        Err(e) => {},
    }
}

/// The transitions between the phases of a record.
///
/// A deposit opens the record, whatever its phase was. A withdrawal takes
/// place only from an open record, and closes it.
pub proof fn phases_follow_the_transitions(
    record: EscrowAccount,
    depositor: Identity,
    pda_receiver: Identity,
    signer: Identity,
    deposited: u64,
    withdrawn: u64,
    current_time: i64,
)
    requires
        record.wf(),
    ensures
        EscrowAccount::spec_new().phase() == Phase::Uninitialized,
        record.after_deposit(depositor, pda_receiver, deposited, current_time) matches Ok(next)
            ==> next.phase() == Phase::Open && next.wf(),
        record.after_withdraw(signer, withdrawn, current_time) matches Ok(next) ==> {
            &&& record.phase() == Phase::Open
            &&& next.phase() == Phase::Closed
            &&& next.wf()
        },
{
}

/// Deposits and withdrawals keep a record consistent: it holds nothing
/// exactly while it is fresh or completed.
pub proof fn transitions_keep_consistency(
    record: EscrowAccount,
    depositor: Identity,
    pda_receiver: Identity,
    signer: Identity,
    deposited: u64,
    withdrawn: u64,
    current_time: i64,
)
    requires
        record.is_consistent(),
    ensures
        EscrowAccount::spec_new().is_consistent(),
        record.wf(),
        record.after_deposit(depositor, pda_receiver, deposited, current_time) matches Ok(next)
            ==> next.is_consistent(),
        record.after_withdraw(signer, withdrawn, current_time) matches Ok(next)
            ==> next.is_consistent(),
{
}

/// An open record keeps its parties and its unlock time through every
/// transition.
pub proof fn parties_and_lock_are_fixed(
    record: EscrowAccount,
    depositor: Identity,
    pda_receiver: Identity,
    signer: Identity,
    amount: u64,
    current_time: i64,
)
    requires
        record.amount > 0,
    ensures
        record.after_deposit(depositor, pda_receiver, amount, current_time) matches Ok(next) ==> {
            &&& next.deposit == record.deposit
            &&& next.pda_receiver == record.pda_receiver
            &&& next.timestamp == record.timestamp
        },
        record.after_withdraw(signer, amount, current_time) matches Ok(next) ==> {
            &&& next.deposit == record.deposit
            &&& next.pda_receiver == record.pda_receiver
            &&& next.timestamp == record.timestamp
        },
{
}

/// A deposit takes place exactly when it is of something and what it would
/// write can be represented: the unlock time for a vacant record, the new
/// amount for an open one. Each error names the first condition that failed.
pub proof fn deposit_conditions(
    record: EscrowAccount,
    depositor: Identity,
    pda_receiver: Identity,
    amount: u64,
    current_time: i64,
)
    ensures
        record.after_deposit(depositor, pda_receiver, amount, current_time) is Ok <==> {
            &&& amount > 0
            &&& record.is_vacant() ==> current_time + LOCK_DELAY <= i64::MAX
            &&& !record.is_vacant() ==> record.amount + amount <= u64::MAX
        },
        record.after_deposit(depositor, pda_receiver, amount, current_time) == Err::<
            EscrowAccount,
            ErrorCode,
        >(ErrorCode::NoFundsAvailable) <==> amount == 0,
        record.after_deposit(depositor, pda_receiver, amount, current_time) == Err::<
            EscrowAccount,
            ErrorCode,
        >(ErrorCode::Overflow) <==> amount > 0 && if record.is_vacant() {
            current_time + LOCK_DELAY > i64::MAX
        } else {
            record.amount + amount > u64::MAX
        },
        record.after_deposit(depositor, pda_receiver, amount, current_time) matches Ok(next) ==> {
            &&& next.amount == record.amount + amount
            &&& next.amount > 0
            &&& !record.is_vacant() ==> next.is_completed == record.is_completed
            &&& record.is_vacant() ==> !next.is_completed
        },
{
}

/// A withdrawal takes place exactly when all five conditions hold, and each
/// error names the first condition that failed.
pub proof fn withdrawal_conditions(
    record: EscrowAccount,
    signer: Identity,
    amount: u64,
    current_time: i64,
)
    ensures
        record.after_withdraw(signer, amount, current_time) is Ok <==> {
            &&& amount > 0
            &&& signer == record.deposit
            &&& current_time >= record.timestamp
            &&& !record.is_completed
            &&& amount <= record.amount
        },
        record.after_withdraw(signer, amount, current_time) == Err::<EscrowAccount, ErrorCode>(
            ErrorCode::NoFundsAvailable,
        ) <==> amount == 0 || record.is_completed,
        record.after_withdraw(signer, amount, current_time) == Err::<EscrowAccount, ErrorCode>(
            ErrorCode::UnauthorizedReceiver,
        ) <==> amount > 0 && !record.is_completed && signer != record.deposit,
        record.after_withdraw(signer, amount, current_time) == Err::<EscrowAccount, ErrorCode>(
            ErrorCode::LockNotElapsed,
        ) <==> amount > 0 && !record.is_completed && signer == record.deposit && current_time
            < record.timestamp,
        record.after_withdraw(signer, amount, current_time) == Err::<EscrowAccount, ErrorCode>(
            ErrorCode::InsufficientFunds,
        ) <==> amount > 0 && !record.is_completed && signer == record.deposit && current_time
            >= record.timestamp && amount > record.amount,
{
}

/// A withdrawal empties and completes the record, and no later withdrawal
/// from it takes place: whoever asks, for whatever amount, at whatever time,
/// is told `NoFundsAvailable`.
pub proof fn withdrawal_closes_record(
    record: EscrowAccount,
    signer: Identity,
    amount: u64,
    current_time: i64,
    later_signer: Identity,
    later_amount: u64,
    later_time: i64,
)
    ensures
        record.after_withdraw(signer, amount, current_time) matches Ok(closed) ==> {
            &&& closed.amount == 0
            &&& closed.is_completed
            &&& closed.wf()
            &&& closed.after_withdraw(later_signer, later_amount, later_time) == Err::<
                EscrowAccount,
                ErrorCode,
            >(ErrorCode::NoFundsAvailable)
        },
{
}

/// A withdrawal that follows a deposit before the unlock time is refused
/// with `LockNotElapsed`, so the amount stays in the record.
pub proof fn withdrawal_before_unlock_is_refused(
    record: EscrowAccount,
    depositor: Identity,
    pda_receiver: Identity,
    deposited: u64,
    deposit_time: i64,
    amount: u64,
    current_time: i64,
)
    requires
        record.wf(),
        amount > 0,
    ensures
        record.after_deposit(depositor, pda_receiver, deposited, deposit_time) matches Ok(funded)
            ==> (current_time < funded.timestamp ==> funded.after_withdraw(
            funded.deposit,
            amount,
            current_time,
        ) == Err::<EscrowAccount, ErrorCode>(ErrorCode::LockNotElapsed)),
{
}

} // verus!
