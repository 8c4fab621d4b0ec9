//! Verified core of a Bitcoin Taproot commit/reveal wallet service.
//!
//! The library covers the request-scoped logic of the service: parsing
//! `txid:vout` outpoints, deriving BIP341 control blocks for single-leaf
//! script trees, validating the external proving engine's response, and
//! orchestrating the broadcast of one or more dependent raw transactions
//! with atomic-first/sequential-fallback semantics. Network and subprocess
//! I/O live outside the library; the functions here take the values those
//! calls produce and are verified for every such value.

pub mod broadcast;
pub mod codec;
pub mod errors;
pub mod lookup;
pub mod models;
pub mod outpoint;
pub mod prover;
pub mod rawtx;
pub mod taproot;

pub use errors::{ErrorKind, WalletError};
