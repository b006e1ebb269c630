//! Signature verification for a transaction-admission pipeline.
//!
//! Every incoming transaction must pass two layers of authentication before
//! it may enter the pending-transaction pool: an external-signature check
//! (local signature recovery or a contract-based scheme judged by an external
//! authority) and the ledger-native self-consistency check. This crate holds
//! the verified decision procedure; the surrounding worker (threads, task
//! scheduler, channels) drives it from outside.

pub mod encoding;
pub mod tx;
pub mod checker;
