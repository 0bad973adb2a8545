//! A custody vault with time-locked deposits, written as a verified instruction
//! processor over a plain model of the accounts that the execution environment hands
//! in. A successful invocation returns the effects to apply, in order: delegated calls
//! to the asset ledger, and writes to the program's own accounts.

/// 32-byte addresses and the fixed addresses of the runtime's services.
pub mod address;
/// Failure kinds.
pub mod error;
/// Accounts as plain values, role checks and derived addresses.
pub mod account;
/// What the vault reads of the asset ledger's mints and token accounts.
pub mod token;
/// The rent and clock services.
pub mod sysvar;
/// The vault's fixed-layout records.
pub mod state;
/// The vault's instruction payloads.
pub mod instruction;
/// Effects of an invocation, and what they do to accounts and balances.
pub mod effect;
/// The vault's instruction processor.
pub mod processor;
/// Properties that hold across operations of the vault.
pub mod laws;
pub mod river;
