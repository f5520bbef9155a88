//! A counter program for an account-based ledger, with its rules verified.
//!
//! The program receives its own identity, an ordered list of accounts and a
//! raw instruction. It decodes the instruction, checks that it owns the
//! account it is asked to touch, and increments the 32-bit counter stored at
//! the front of that account. One instruction additionally has the host
//! allocate space in a second account, authorised by a program-derived
//! address.
//!
//! Accounts are plain values here: an address, an owner and bytes. The
//! caller copies them out of whatever handles its host gives it and writes
//! back what `process_instruction` changed. Calls to other programs are the
//! caller's to make: `process_instruction` returns the call, and
//! `complete_cpi` takes the host's answer.

pub mod account;
pub mod encoding;
pub mod error;
pub mod instruction;
pub mod invocation;
pub mod processor;
pub mod state;

pub use account::{Account, Address};
pub use encoding::le_u64;
pub use error::ProcessError;
pub use instruction::SolanaInstruction;
pub use invocation::{sign, AccountMeta, DelegatedInstruction, Invocation, SIZE};
pub use processor::{
    complete_cpi, greet, process_cpi, process_example, process_instruction, process_transfer,
    Progress,
};
pub use state::GreetingAccount;
