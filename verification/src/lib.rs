//! Verified core of a token-metadata program: metadata records attached to SPL Token and
//! Token-2022 mints, the instruction formats that create and change them, and the rules that
//! decide which changes are allowed.
//!
//! The handlers work on accounts held as plain values ([`account::AccountView`]); what only
//! the runtime can do (reading and writing real accounts, the token programs' mint readers,
//! the system program's `CreateAccount`) is left to the caller.
pub mod account;
pub mod address;
mod bytes;
pub mod checks;
pub mod entrypoint;
pub mod error;
pub mod id;
pub mod instruction;
pub mod laws;
pub mod pda;
pub mod processor;
pub mod programs;
pub mod state;

pub use address::Address;
pub use id::{check_id, id, ID_BYTES};
