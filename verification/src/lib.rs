//! A database of cryptographic nullifiers: 32-byte values that may each be
//! used once. The nullifiers live in a hash set; their persistent form is
//! an append-only file of 32-byte records, read back on recovery and cut
//! down to its complete records when its end is torn.
//!
//! This crate holds the decisions; the file operations and the lock calls
//! are made by the caller, who hands their outcomes back.

mod scalar_set;
pub mod records;
pub mod text;
pub mod error;
pub mod db;
pub mod recovery;
pub mod laws;

pub use db::{NullifierDB, Scalar};
pub use error::{IoErrorKind, IoFailure, NullifierError};
pub use recovery::{Recovery, RecoveryAction, RecoveryEvent, RecoveryPhase};
