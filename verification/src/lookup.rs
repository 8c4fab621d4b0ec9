//! The decision parts of UTXO and previous-transaction lookup.
//!
//! The node calls themselves are I/O and live with the caller; these
//! functions take the values a node lookup produced and hold the
//! component's contracts: a missing output is `NotFound`, and a list of
//! previous transactions is complete and ordered or not returned at all.

use vstd::prelude::*;

use crate::errors::ErrorKind;
use crate::errors::WalletError;

verus! {

/// Turn a node's answer about an output into the funding value.
///
/// `found` is the value of the output at the requested outpoint, if the
/// node knows one. A missing or spent output is `NotFound`; success
/// returns exactly the reported satoshi value.
pub fn resolve_funding_value(found: Option<u64>) -> (r: Result<u64, WalletError>)
    ensures
        r is Ok <==> found is Some,
        r matches Ok(v) ==> found == Some(v),
        r matches Err(e) ==> e.kind is NotFound,
{
    match found {
        Some(v) => Ok(v),
        None => Err(WalletError::new(ErrorKind::NotFound, "UTXO not found")),
    }
}

/// Assemble the previous-transaction list of a transaction's inputs.
///
/// `fetched` holds, in input order, the raw bytes of each referenced
/// transaction, or `None` where the lookup failed. The whole call
/// succeeds only when every input's transaction was found — a partial
/// list is never returned — and the order of the inputs is kept.
pub fn collect_prev_txs(fetched: Vec<Option<Vec<u8>>>) -> (r: Result<Vec<Vec<u8>>, WalletError>)
    ensures
        r is Ok <==> (forall|i: int| 0 <= i < fetched@.len() ==> #[trigger] fetched@[i] is Some),
        r matches Ok(v) ==> v@.len() == fetched@.len() && (forall|i: int|
            0 <= i < fetched@.len() ==> #[trigger] v@[i]@ == fetched@[i]->0@),
        r matches Err(e) ==> e.kind is NotFound,
{
    let mut out: Vec<Vec<u8>> = Vec::new();
    let mut i: usize = 0;
    while i < fetched.len()
        invariant
            i <= fetched@.len(),
            out@.len() == i,
            forall|j: int| 0 <= j < i ==> #[trigger] fetched@[j] is Some,
            forall|j: int| 0 <= j < i ==> #[trigger] out@[j]@ == fetched@[j]->0@,
        decreases fetched@.len() - i,
    {
        match &fetched[i] {
            Some(tx) => {
                out.push(clone_bytes(tx));
            },
            None => {
                return Err(
                    WalletError::new(ErrorKind::NotFound, "previous transaction not found"),
                );
            },
        }
        i = i + 1;
    }
    Ok(out)
}

/// Copy a byte vector; the copy reads back identically.
fn clone_bytes(v: &Vec<u8>) -> (r: Vec<u8>)
    ensures
        r@ == v@,
{
    let mut r: Vec<u8> = Vec::new();
    let mut i: usize = 0;
    while i < v.len()
        invariant
            i <= v@.len(),
            r@.len() == i,
            forall|j: int| 0 <= j < i ==> #[trigger] r@[j] == v@[j],
        decreases v@.len() - i,
    {
        r.push(v[i]);
        i = i + 1;
    }
    proof {
        assert(r@ =~= v@);
    }
    r
}

} // verus!
