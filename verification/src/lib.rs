//! A ledger of fungible token ownership whose state changes only through
//! commands that are signed, authenticated by signer recovery, and protected
//! against replay.
//!
//! The modules, leaf first:
//!
//! - [`error`]: the reasons for which an operation is rejected;
//! - [`value`]: exact 256-bit unsigned arithmetic over two 128-bit limbs;
//! - [`hashing`]: the digest function, Keccak-256;
//! - [`signature`]: signing a digest and recovering the signer's address;
//! - [`command`]: the signed commands, their canonical messages and records;
//! - [`model`]: the ledger as a mathematical state machine;
//! - [`ledger`]: the ledger as it is stored, tied to the model;
//! - [`token`]: the service that authenticates commands and owns the ledger;
//! - [`laws`]: what holds of the ledger in every state.

pub mod command;
pub mod error;
pub mod hashing;
pub mod laws;
pub mod ledger;
pub mod model;
pub mod signature;
pub mod token;
pub mod value;

pub use command::{Allowance, Approve, Transfer, TransferFrom};
pub use error::Error;
pub use ledger::LedgerState;
pub use signature::{Address, Signature};
pub use token::{Command, Reply, Token};
pub use value::Value;
