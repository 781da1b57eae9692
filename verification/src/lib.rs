//! A single-account calculator for an account-based ledger runtime.
//!
//! Given a caller-supplied 12-byte binary instruction and a list of account
//! records, the handler validates authorization, decodes the instruction,
//! applies one arithmetic operation to the account's persisted state, and
//! writes the re-encoded state back into the account's byte buffer. Every
//! rejection is reported through a dedicated error, and a rejected call
//! leaves every account untouched.

pub mod account;
pub mod engine;
pub mod errors;
pub mod handler;
pub mod instruction;
pub mod state;

pub use account::Account;
pub use errors::CalcError;
pub use handler::handle_instruction;
pub use instruction::Instruction;
pub use state::CalcResult;
