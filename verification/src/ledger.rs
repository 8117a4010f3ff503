//! What the engine asks of the ledger: a transfer, and the system program's
//! instruction that carries it.

use vstd::prelude::*;
use crate::identity::Identity;

verus! {

/// A movement of funds that the ledger is asked to carry out.
#[derive(Clone, Copy, Debug, PartialEq, Eq)]
pub struct Transfer {
    pub from: Identity,
    pub to: Identity,
    pub amount: u64,
}

/// The ledger's refusal to carry out a transfer.
#[derive(Clone, Copy, Debug, PartialEq, Eq)]
pub struct TransferError;

/// An account that an instruction touches, and how.
#[derive(Clone, Copy, Debug, PartialEq, Eq)]
pub struct AccountMeta {
    pub pubkey: Identity,
    /// The account has to sign the transaction.
    pub is_signer: bool,
    /// The instruction may change the account.
    pub is_writable: bool,
}

/// An instruction for a program of the ledger.
#[derive(Clone, Debug, PartialEq, Eq)]
pub struct Instruction {
    /// The program that carries the instruction out.
    pub program_id: Identity,
    /// The accounts it touches, in the order the program expects.
    pub accounts: Vec<AccountMeta>,
    /// The program's own encoding of what to do.
    pub data: Vec<u8>,
}

impl Transfer {
    /// The accounts of the transfer instruction: the source, which signs,
    /// and the destination, both writable.
    pub open spec fn accounts(self) -> Seq<AccountMeta> {
        seq![
            AccountMeta { pubkey: self.from, is_signer: true, is_writable: true },
            AccountMeta { pubkey: self.to, is_signer: false, is_writable: true },
        ]
    }

    /// The data of the transfer instruction: the number of the system
    /// program's transfer operation in four bytes, then the amount in eight,
    /// both with the low byte first.
    pub open spec fn data(self) -> Seq<u8> {
        seq![2u8, 0u8, 0u8, 0u8] + vstd::bytes::spec_u64_to_le_bytes(self.amount)
    }

    /// Whether `ix` is the system program's instruction for this transfer.
    pub open spec fn is_carried_by(self, ix: &Instruction) -> bool {
        &&& ix.program_id == Identity::spec_zero()
        &&& ix.accounts@ == self.accounts()
        &&& ix.data@ == self.data()
    }

    /// The instruction that asks the system program for this transfer.
    pub fn instruction(&self) -> (ix: Instruction)
        ensures
            self.is_carried_by(&ix),
    {
        system_transfer(&self.from, &self.to, self.amount)
    }
}

/// Calls `system_instruction::transfer` of `solana_program` and hands its
/// result back field by field.
///
/// Taken on trust from that function's source: the instruction is addressed
/// to the system program, whose identity is all zero; it lists `from` as a
/// writable signer and then `to` as writable, not a signer; and its data is
/// the `Transfer` variant as `bincode` writes it: the variant's index, 2, in
/// four bytes and `lamports` in eight, each with the low byte first.
#[verifier::external_body]
fn system_transfer(from: &Identity, to: &Identity, lamports: u64) -> (ix: Instruction)
    ensures
        (Transfer { from: *from, to: *to, amount: lamports }).is_carried_by(&ix),
{
    let made = anchor_lang::solana_program::system_instruction::transfer(
        &anchor_lang::solana_program::pubkey::Pubkey::new_from_array(from.bytes),
        &anchor_lang::solana_program::pubkey::Pubkey::new_from_array(to.bytes),
        lamports,
    );
    let accounts = made.accounts.iter().map(
        |m| AccountMeta {
            pubkey: Identity { bytes: m.pubkey.to_bytes() },
            is_signer: m.is_signer,
            is_writable: m.is_writable,
        },
    ).collect();
    Instruction { program_id: Identity { bytes: made.program_id.to_bytes() }, accounts, data: made.data }
}

} // verus!
