//! Trusted view of consensus-encoded raw transactions.
//!
//! A raw transaction travels as opaque consensus-encoded bytes. The
//! library needs two facts about such bytes that only the `bitcoin` crate
//! can compute: whether they decode as a transaction, and what id the
//! decoded transaction has. Both are functions of the bytes alone and are
//! named here; the wrappers are the only code that touches the decoder.

use vstd::prelude::*;

verus! {

/// True when the bytes begin with a well-formed consensus-encoded
/// Bitcoin transaction.
pub uninterp spec fn tx_decode_ok(bytes: Seq<u8>) -> bool;

/// The transaction id of a decodable raw transaction, in its display
/// form: 64 lowercase hex characters.
pub uninterp spec fn txid_hex(bytes: Seq<u8>) -> Seq<char>;

/// Relies on `bitcoin::Transaction::consensus_decode`: whether the bytes
/// decode is a function of the bytes alone.
#[verifier::external_body]
pub(crate) fn transaction_decodes(bytes: &[u8]) -> (b: bool)
    ensures
        b == tx_decode_ok(bytes@),
{
    let mut cursor = std::io::Cursor::new(bytes);
    <bitcoin::Transaction as bitcoin::consensus::encode::Decodable>::consensus_decode(
        &mut cursor,
    ).is_ok()
}

/// Relies on `bitcoin::Transaction::consensus_decode`,
/// `Transaction::compute_txid` and the display form of `Txid`: the id of
/// a decodable transaction is a function of the bytes alone, written as
/// 64 hex characters.
#[verifier::external_body]
pub(crate) fn transaction_txid_hex(bytes: &[u8]) -> (r: Option<String>)
    ensures
        r is Some <==> tx_decode_ok(bytes@),
        r matches Some(t) ==> t@ == txid_hex(bytes@) && t@.len() == 64,
{
    let mut cursor = std::io::Cursor::new(bytes);
    let tx = <bitcoin::Transaction as bitcoin::consensus::encode::Decodable>::consensus_decode(
        &mut cursor,
    ).ok()?;
    Some(tx.compute_txid().to_string())
}

} // verus!
