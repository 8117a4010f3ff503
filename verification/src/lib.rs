//! A time-locked escrow between a depositor and a receiver: the custody
//! record, the two transitions that change it, and a store of records.

pub mod engine;
pub mod error;
pub mod identity;
pub mod laws;
pub mod ledger;
pub mod record;
pub mod service;
pub mod store;

pub use engine::{deposit, withdraw, Deposit, Effect, Event, Withdraw};
pub use error::ErrorCode;
pub use identity::Identity;
pub use ledger::{AccountMeta, Instruction, Transfer, TransferError};
pub use record::{EscrowAccount, Phase, INIT_SPACE, LOCK_DELAY};
pub use service::{conclude, submit_deposit, submit_withdraw};
pub use store::EscrowStore;
