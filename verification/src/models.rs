//! The request and response shapes of the wallet service.
//!
//! Plain data carried between the service and its callers. The copies
//! that cross process boundaries live with the I/O code; these are the
//! bare types the library's contracts speak about.

use vstd::prelude::*;

verus! {

/// An unspent output as reported to callers.
#[derive(Debug)]
pub struct Utxo {
    pub txid: String,
    pub vout: u32,
    pub value: u64,
    pub status: UtxoStatus,
}

/// Confirmation state of a UTXO.
#[derive(Debug)]
pub struct UtxoStatus {
    pub confirmed: bool,
}

/// A transaction-build request; all inputs travel in the body elsewhere.
#[derive(Debug)]
pub struct TransactionRequest {}

/// The id and fee of a built transaction.
#[derive(Debug)]
pub struct TransactionResponse {
    pub tx_id: String,
    pub fee: u64,
}

/// Three fee options, in satoshis.
#[derive(Debug)]
pub struct FeeEstimateResponse {
    pub fast: u64,
    pub medium: u64,
    pub slow: u64,
}

/// A broadcast request: one transaction, or an ordered package whose
/// later entries may spend outputs of earlier ones.
#[derive(Debug)]
pub struct BroadcastTxRequest {
    pub tx_hex: String,
    pub tx_package: Option<Vec<String>>,
}

/// What a broadcast reports back: the aggregate id, the command a shell
/// user could have run, the node's words, and the per-transaction ids of
/// a package.
#[derive(Debug)]
pub struct BroadcastTxResponse {
    pub txid: String,
    pub command: String,
    pub node_response: Option<String>,
    pub txids: Option<Vec<String>>,
}

/// A sign-then-broadcast request.
#[derive(Debug)]
pub struct SendHexTxRequest {
    pub tx_hex: String,
    pub network: String,
}

/// Query parameters of a raw-transaction lookup.
#[derive(Debug)]
pub struct GetRawTransactionParams {
    pub verbose: Option<bool>,
}

/// Handle to the local node used for wallet queries. The node is
/// external; the handle carries no state.
#[derive(Debug)]
pub struct BitcoinNode;

impl BitcoinNode {
    /// Create a node handle.
    pub fn new() -> (n: BitcoinNode) {
        BitcoinNode
    }
}

/// A protocol data value, carried in its CBOR encoding.
///
/// The embedded protocol data the commit/reveal pair transports is CBOR
/// in transit; the library holds the encoded bytes and the one fact its
/// logic reads, emptiness: the canonical encoding of null, the single
/// byte 0xf6.
#[derive(Debug, Clone, PartialEq)]
pub struct Data {
    bytes: Vec<u8>,
}

impl View for Data {
    type V = Seq<u8>;

    closed spec fn view(&self) -> Seq<u8> {
        self.bytes@
    }
}

impl Data {
    /// The empty data value: the canonical CBOR encoding of null.
    pub fn empty() -> (d: Data)
        ensures
            d@ == seq![0xf6u8],
    {
        let mut bytes: Vec<u8> = Vec::new();
        bytes.push(0xf6);
        proof {
            assert(bytes@ =~= seq![0xf6u8]);
        }
        Data { bytes }
    }

    /// Wrap already-encoded CBOR bytes.
    pub fn from_bytes(bytes: Vec<u8>) -> (d: Data)
        ensures
            d@ == bytes@,
    {
        Data { bytes }
    }

    /// True exactly of the empty (null) data value.
    pub fn is_empty(&self) -> (b: bool)
        ensures
            b == (self@ == seq![0xf6u8]),
    {
        let r = self.bytes.len() == 1 && self.bytes[0] == 0xf6;
        proof {
            if r {
                assert(self@ =~= seq![0xf6u8]);
            }
        }
        r
    }

    /// The CBOR bytes of this value.
    pub fn bytes(&self) -> (r: Vec<u8>)
        ensures
            r@ == self@,
    {
        let mut r: Vec<u8> = Vec::new();
        let mut i: usize = 0;
        while i < self.bytes.len()
            invariant
                i <= self.bytes@.len(),
                r@.len() == i,
                forall|j: int| 0 <= j < i ==> #[trigger] r@[j] == self.bytes@[j],
            decreases self.bytes@.len() - i,
        {
            r.push(self.bytes[i]);
            i = i + 1;
        }
        proof {
            assert(r@ =~= self.bytes@);
        }
        r
    }
}

} // verus!
