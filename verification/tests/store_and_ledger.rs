use anchor_lang::solana_program::pubkey::Pubkey;
use anchor_lang::solana_program::system_instruction;
use anchor_lang::solana_program::system_program;
use escrow_transfer::{
    conclude, submit_deposit, submit_withdraw, AccountMeta, ErrorCode, EscrowAccount, EscrowStore,
    Event, Identity, Transfer, TransferError,
};
use std::cell::RefCell;

fn id(n: u8) -> Identity {
    Identity::new([n; 32])
}

fn funded(depositor: Identity, receiver: Identity, amount: u64, unlock: i64) -> EscrowAccount {
    EscrowAccount {
        deposit: depositor,
        pda_receiver: receiver,
        amount,
        timestamp: unlock,
        is_completed: false,
    }
}

#[test]
fn empty_store_reads_fresh_records() {
    let store = EscrowStore::new(4);
    assert_eq!(store.len(), 0);
    assert_eq!(store.capacity(), 4);
    assert!(!store.contains(&id(1)));
    assert_eq!(store.get_or_create(&id(1)), EscrowAccount::new());
    assert_eq!(store.len(), 0);
}

#[test]
fn put_stores_and_replaces() {
    let mut store = EscrowStore::new(2);
    assert_eq!(store.put(id(1), funded(id(1), id(2), 5, 60)), Ok(()));
    assert_eq!(store.put(id(3), funded(id(3), id(2), 6, 70)), Ok(()));
    assert_eq!(store.len(), 2);
    assert_eq!(store.get_or_create(&id(1)), funded(id(1), id(2), 5, 60));
    assert_eq!(store.get_or_create(&id(3)), funded(id(3), id(2), 6, 70));
    assert_eq!(store.put(id(1), funded(id(1), id(2), 9, 60)), Ok(()));
    assert_eq!(store.len(), 2);
    assert_eq!(store.get_or_create(&id(1)), funded(id(1), id(2), 9, 60));
    assert_eq!(store.get_or_create(&id(3)), funded(id(3), id(2), 6, 70));
}

#[test]
fn put_into_full_store_fails() {
    let mut store = EscrowStore::new(1);
    assert_eq!(store.put(id(1), funded(id(1), id(2), 5, 60)), Ok(()));
    assert_eq!(store.put(id(3), funded(id(3), id(2), 6, 70)), Err(ErrorCode::StorageFailure));
    assert_eq!(store.len(), 1);
    assert!(!store.contains(&id(3)));
    assert_eq!(store.get_or_create(&id(1)), funded(id(1), id(2), 5, 60));
    let mut none = EscrowStore::new(0);
    assert_eq!(none.put(id(1), EscrowAccount::new()), Err(ErrorCode::StorageFailure));
}

#[test]
fn submitted_escrow_from_deposit_to_release() {
    let a = id(0xA);
    let b = id(0xB);
    let key = id(0xE);
    let asked: RefCell<Vec<Transfer>> = RefCell::new(Vec::new());
    let mut store = EscrowStore::new(8);

    let r = submit_deposit(&mut store, a, key, b, 100, 0, |t| {
        asked.borrow_mut().push(t);
        Ok(())
    });
    assert_eq!(r, Ok(Event::Deposited { depositor: a, escrow_key: key }));
    assert_eq!(store.get_or_create(&key), funded(a, b, 100, 60));

    let r = submit_deposit(&mut store, a, key, b, 50, 10, |t| {
        asked.borrow_mut().push(t);
        Ok(())
    });
    assert_eq!(r, Ok(Event::Deposited { depositor: a, escrow_key: key }));
    assert_eq!(store.get_or_create(&key).amount, 150);
    assert_eq!(store.get_or_create(&key).timestamp, 60);

    let r = submit_withdraw(&mut store, key, a, b, 150, 30, |t| {
        asked.borrow_mut().push(t);
        Ok(())
    });
    assert_eq!(r, Err(ErrorCode::LockNotElapsed));
    assert_eq!(store.get_or_create(&key), funded(a, b, 150, 60));

    let r = submit_withdraw(&mut store, key, a, b, 150, 61, |t| {
        asked.borrow_mut().push(t);
        Ok(())
    });
    assert_eq!(r, Ok(Event::Withdrawn { receiver: b, amount: 150 }));
    assert_eq!(store.get_or_create(&key).amount, 0);
    assert!(store.get_or_create(&key).is_completed);

    let r = submit_withdraw(&mut store, key, a, b, 150, 62, |t| {
        asked.borrow_mut().push(t);
        Ok(())
    });
    assert_eq!(r, Err(ErrorCode::NoFundsAvailable));

    assert_eq!(
        asked.into_inner(),
        vec![
            Transfer { from: a, to: key, amount: 100 },
            Transfer { from: a, to: key, amount: 50 },
            Transfer { from: key, to: b, amount: 150 },
        ]
    );
    assert_eq!(store.len(), 1);
}

#[test]
fn refused_deposit_stores_nothing() {
    let mut store = EscrowStore::new(8);
    let r = submit_deposit(&mut store, id(1), id(9), id(2), 100, 0, |_t| Err(TransferError));
    assert_eq!(r, Err(ErrorCode::InsufficientFunds));
    assert_eq!(store.len(), 0);
    assert!(!store.contains(&id(9)));

    submit_deposit(&mut store, id(1), id(9), id(2), 100, 0, |_t| Ok(())).unwrap();
    let r = submit_deposit(&mut store, id(1), id(9), id(2), 7, 5, |_t| Err(TransferError));
    assert_eq!(r, Err(ErrorCode::InsufficientFunds));
    assert_eq!(store.get_or_create(&id(9)), funded(id(1), id(2), 100, 60));
}

#[test]
fn refused_release_keeps_record_open() {
    let mut store = EscrowStore::new(8);
    submit_deposit(&mut store, id(1), id(9), id(2), 100, 0, |_t| Ok(())).unwrap();
    let r = submit_withdraw(&mut store, id(9), id(1), id(2), 100, 60, |_t| Err(TransferError));
    assert_eq!(r, Err(ErrorCode::TransferFailure));
    assert_eq!(store.get_or_create(&id(9)), funded(id(1), id(2), 100, 60));
    let r = submit_withdraw(&mut store, id(9), id(1), id(2), 100, 60, |_t| Ok(()));
    assert_eq!(r, Ok(Event::Withdrawn { receiver: id(2), amount: 100 }));
}

#[test]
fn invalid_request_never_reaches_ledger() {
    let calls = RefCell::new(0u32);
    let mut store = EscrowStore::new(1);
    store.put(id(9), funded(id(1), id(2), u64::MAX, 60)).unwrap();
    let r = submit_deposit(&mut store, id(1), id(9), id(2), 1, 0, |_t| {
        *calls.borrow_mut() += 1;
        Ok(())
    });
    assert_eq!(r, Err(ErrorCode::Overflow));
    let r = submit_deposit(&mut store, id(3), id(8), id(2), 1, 0, |_t| {
        *calls.borrow_mut() += 1;
        Ok(())
    });
    assert_eq!(r, Err(ErrorCode::StorageFailure));
    let r = submit_withdraw(&mut store, id(9), id(3), id(2), 1, 100, |_t| {
        *calls.borrow_mut() += 1;
        Ok(())
    });
    assert_eq!(r, Err(ErrorCode::UnauthorizedReceiver));
    let r = submit_withdraw(&mut store, id(8), id(3), id(2), 1, 100, |_t| {
        *calls.borrow_mut() += 1;
        Ok(())
    });
    assert_eq!(r, Err(ErrorCode::UnauthorizedReceiver));
    assert_eq!(*calls.borrow(), 0);
    assert_eq!(store.len(), 1);
    assert_eq!(store.get_or_create(&id(9)), funded(id(1), id(2), u64::MAX, 60));
}

#[test]
fn deposit_of_nothing_never_reaches_ledger() {
    let calls = RefCell::new(0u32);
    let mut store = EscrowStore::new(2);
    let r = submit_deposit(&mut store, id(1), id(9), id(2), 0, 0, |_t| {
        *calls.borrow_mut() += 1;
        Ok(())
    });
    assert_eq!(r, Err(ErrorCode::NoFundsAvailable));
    assert_eq!(store.len(), 0);
    assert!(!store.contains(&id(9)));

    submit_deposit(&mut store, id(1), id(9), id(2), 4, 10, |_t| Ok(())).unwrap();
    let r = submit_deposit(&mut store, id(1), id(9), id(2), 0, 20, |_t| {
        *calls.borrow_mut() += 1;
        Ok(())
    });
    assert_eq!(r, Err(ErrorCode::NoFundsAvailable));
    assert_eq!(*calls.borrow(), 0);
    assert_eq!(store.get_or_create(&id(9)), funded(id(1), id(2), 4, 70));
}

#[test]
fn full_store_still_takes_deposits_into_known_records() {
    let mut store = EscrowStore::new(1);
    submit_deposit(&mut store, id(1), id(9), id(2), 10, 0, |_t| Ok(())).unwrap();
    let r = submit_deposit(&mut store, id(1), id(9), id(2), 5, 3, |_t| Ok(()));
    assert_eq!(r, Ok(Event::Deposited { depositor: id(1), escrow_key: id(9) }));
    assert_eq!(store.get_or_create(&id(9)).amount, 15);
}

#[test]
fn records_of_different_identities_do_not_mix() {
    let mut store = EscrowStore::new(8);
    submit_deposit(&mut store, id(1), id(11), id(2), 10, 0, |_t| Ok(())).unwrap();
    submit_deposit(&mut store, id(3), id(13), id(4), 20, 100, |_t| Ok(())).unwrap();
    submit_deposit(&mut store, id(1), id(11), id(2), 1, 50, |_t| Ok(())).unwrap();
    assert_eq!(store.get_or_create(&id(11)), funded(id(1), id(2), 11, 60));
    assert_eq!(store.get_or_create(&id(13)), funded(id(3), id(4), 20, 160));
    submit_withdraw(&mut store, id(11), id(1), id(2), 11, 60, |_t| Ok(())).unwrap();
    assert_eq!(store.get_or_create(&id(13)), funded(id(3), id(4), 20, 160));
    assert!(store.get_or_create(&id(11)).is_completed);
}

#[test]
fn two_submitted_deposits_are_both_counted() {
    let mut one = EscrowStore::new(2);
    submit_deposit(&mut one, id(1), id(9), id(2), 30, 0, |_t| Ok(())).unwrap();
    submit_deposit(&mut one, id(1), id(9), id(2), 12, 0, |_t| Ok(())).unwrap();
    let mut other = EscrowStore::new(2);
    submit_deposit(&mut other, id(1), id(9), id(2), 12, 0, |_t| Ok(())).unwrap();
    submit_deposit(&mut other, id(1), id(9), id(2), 30, 0, |_t| Ok(())).unwrap();
    assert_eq!(one.get_or_create(&id(9)).amount, 42);
    assert_eq!(other.get_or_create(&id(9)).amount, 42);
}

#[test]
fn conclude_follows_the_ledger() {
    let mut store = EscrowStore::new(1);
    let event = Event::Deposited { depositor: id(1), escrow_key: id(9) };
    let record = funded(id(1), id(2), 5, 60);
    assert_eq!(
        conclude(&mut store, id(9), record, event, Err(TransferError), ErrorCode::InsufficientFunds),
        Err(ErrorCode::InsufficientFunds)
    );
    assert_eq!(store.len(), 0);
    assert_eq!(
        conclude(&mut store, id(9), record, event, Ok(()), ErrorCode::InsufficientFunds),
        Ok(event)
    );
    assert_eq!(store.get_or_create(&id(9)), record);
    assert_eq!(
        conclude(&mut store, id(8), record, event, Ok(()), ErrorCode::TransferFailure),
        Err(ErrorCode::StorageFailure)
    );
    assert_eq!(store.len(), 1);
}

#[test]
fn transfer_instruction_has_the_stated_fields() {
    let t = Transfer { from: id(1), to: id(2), amount: 0x0102_0304_0506_0708 };
    let ix = t.instruction();
    assert_eq!(ix.program_id, Identity::zero());
    assert_eq!(
        ix.accounts,
        vec![
            AccountMeta { pubkey: id(1), is_signer: true, is_writable: true },
            AccountMeta { pubkey: id(2), is_signer: false, is_writable: true },
        ]
    );
    assert_eq!(ix.data, vec![2, 0, 0, 0, 8, 7, 6, 5, 4, 3, 2, 1]);
}

#[test]
fn transfer_instruction_is_the_system_program_one() {
    let t = Transfer { from: id(7), to: id(8), amount: 150 };
    let ix = t.instruction();
    let theirs = system_instruction::transfer(
        &Pubkey::new_from_array([7; 32]),
        &Pubkey::new_from_array([8; 32]),
        150,
    );
    assert_eq!(ix.program_id.to_bytes(), system_program::id().to_bytes());
    assert_eq!(ix.program_id.to_bytes(), theirs.program_id.to_bytes());
    assert_eq!(ix.data, theirs.data);
    assert_eq!(ix.accounts.len(), theirs.accounts.len());
    for i in 0..ix.accounts.len() {
        assert_eq!(ix.accounts[i].pubkey.to_bytes(), theirs.accounts[i].pubkey.to_bytes());
        assert_eq!(ix.accounts[i].is_signer, theirs.accounts[i].is_signer);
        assert_eq!(ix.accounts[i].is_writable, theirs.accounts[i].is_writable);
    }
}
