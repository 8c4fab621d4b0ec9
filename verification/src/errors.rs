//! Error taxonomy of the wallet service.
//!
//! Every error carries a stable machine-checkable kind together with a
//! human-readable message. Contracts throughout the library speak of the
//! kind; the message is presentation only.

use vstd::prelude::*;

verus! {

/// The machine-checkable kind of a wallet error.
#[derive(Clone, Copy, Debug, PartialEq, Eq, Structural)]
pub enum ErrorKind {
    /// A `txid:vout` string did not have exactly two `:`-separated parts.
    OutpointFormat,
    /// The txid part of an outpoint was not a 64-character hex id.
    InvalidTxid,
    /// The vout part of an outpoint was not an unsigned 32-bit integer.
    InvalidVout,
    /// A string that should carry hex-encoded bytes was not valid hex.
    InvalidHex,
    /// Raw transaction bytes did not decode as a consensus transaction.
    DecodeError,
    /// A broadcast request carried no transactions.
    EmptyPackage,
    /// A looked-up UTXO or previous transaction does not exist.
    NotFound,
    /// The funding value cannot cover the required outputs and fee.
    InsufficientFunds,
    /// The proving engine rejected the inputs or returned the wrong
    /// number of transactions.
    ConstructionError,
    /// A transport failure while talking to a remote collaborator.
    NetworkError,
    /// The node rejected a transaction.
    BroadcastFailure,
}

/// True of the kinds that the service reports as format errors:
/// malformed outpoints, hex, scripts, or an empty package.
pub open spec fn is_format_kind(k: ErrorKind) -> bool {
    ||| k is OutpointFormat
    ||| k is InvalidTxid
    ||| k is InvalidVout
    ||| k is InvalidHex
    ||| k is DecodeError
    ||| k is EmptyPackage
}

/// An error of the wallet service: a stable kind plus a message.
#[derive(Debug)]
pub struct WalletError {
    pub kind: ErrorKind,
    pub message: String,
}

impl WalletError {
    /// Build an error of the given kind with the given message.
    pub fn new(kind: ErrorKind, message: &str) -> (e: WalletError)
        ensures
            e.kind == kind,
            e.message@ == message@,
    {
        WalletError { kind, message: message.to_owned() }
    }

    /// The machine-checkable kind of this error.
    pub fn kind(&self) -> (k: ErrorKind)
        ensures
            k == self.kind,
    {
        self.kind
    }

    /// The human-readable message of this error.
    pub fn message(&self) -> (m: &str)
        ensures
            m@ == self.message@,
    {
        self.message.as_str()
    }
}

} // verus!
