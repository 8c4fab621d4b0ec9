//! The contract side of the external proving engine.
//!
//! The engine builds the commit/reveal transaction pair; it is consumed
//! over HTTP by the caller, and nothing of its cryptography is
//! reimplemented here. What the library holds is the narrow contract
//! around the exchange: how a response status is classified, and that a
//! well-formed answer carries exactly two transactions.

use vstd::prelude::*;

use crate::errors::ErrorKind;
use crate::errors::WalletError;

verus! {

/// Handle to the proving-engine collaborator. The engine is remote and
/// request-scoped, so the handle carries no state.
pub struct SpellProver;

impl SpellProver {
    /// Create a prover handle.
    pub fn new() -> (p: SpellProver) {
        SpellProver
    }
}

/// What a successful proving request hands back to the caller: the
/// transaction pair, the Taproot script the commit output is bound to,
/// and the advisory control block, all hex-encoded.
pub struct SpellProofResult {
    pub commit_tx: String,
    pub spell_tx: String,
    pub taproot_script: String,
    pub control_block: String,
}

/// True of an HTTP status the engine reports success with.
pub open spec fn status_is_success(status: u16) -> bool {
    200 <= status < 300
}

/// Classify the proving engine's HTTP answer.
///
/// `status` is the response status code and `json_ok` whether the body
/// parsed as JSON. A non-success status is a transport-level failure of
/// the collaborator; a success status with an unreadable body means the
/// engine violated its response contract.
pub fn prover_response_outcome(status: u16, json_ok: bool) -> (r: Result<(), WalletError>)
    ensures
        r is Ok <==> status_is_success(status) && json_ok,
        !status_is_success(status) ==> (r matches Err(e) && e.kind is NetworkError),
        status_is_success(status) && !json_ok ==> (r matches Err(e)
            && e.kind is ConstructionError),
{
    if !(200 <= status && status < 300) {
        Err(WalletError::new(ErrorKind::NetworkError, "prover service returned an error status"))
    } else if !json_ok {
        Err(
            WalletError::new(
                ErrorKind::ConstructionError,
                "prover response is not valid JSON",
            ),
        )
    } else {
        Ok(())
    }
}

/// Hold the proving engine to its arity contract: exactly two
/// transactions, the commit and the reveal.
///
/// Any other number of transactions in the engine's answer is a contract
/// violation, reported as a construction error; on success the pair is
/// returned in order.
pub fn validate_transaction_pair(txs: Vec<String>) -> (r: Result<(String, String), WalletError>)
    ensures
        r is Ok <==> txs@.len() == 2,
        r matches Ok(pair) ==> pair.0@ == txs@[0]@ && pair.1@ == txs@[1]@,
        r matches Err(e) ==> e.kind is ConstructionError,
{
    if txs.len() != 2 {
        return Err(
            WalletError::new(
                ErrorKind::ConstructionError,
                "prover must return exactly two transactions",
            ),
        );
    }
    let mut txs = txs;
    let reveal = match txs.pop() {
        Some(t) => t,
        None => vstd::pervasive::unreached(),
    };
    let commit = match txs.pop() {
        Some(t) => t,
        None => vstd::pervasive::unreached(),
    };
    Ok((commit, reveal))
}

} // verus!
