//! Broadcast orchestration: atomic-first, sequential-fallback submission
//! of an ordered list of dependent raw transactions.
//!
//! The orchestrator is a state machine. [`BroadcastSession::start`]
//! validates a request and decides the starting branch; the caller then
//! performs the node call that [`BroadcastSession::next_action`] names
//! and hands the node's answer to [`BroadcastSession::on_reply`], until
//! an outcome appears. Every transition is pinned by the [`step_ok`]
//! relation, and the laws at the end of the module — single path for one
//! transaction, package first for several, ordered fallback, partial
//! results on abort, no index submitted twice — are proved over it.
//!
//! Broadcast is irreversible: a transaction the node has accepted stays
//! on the network even if a later one fails, which is why an abort
//! reports every id accepted so far instead of hiding them.

use vstd::prelude::*;
use vstd::pervasive::unreached;
use vstd::string::StringExecFns;

use crate::codec::hex_decoded;
use crate::codec::hex_to_bytes;
use crate::codec::is_hex_str;
use crate::errors::ErrorKind;
use crate::errors::WalletError;
use crate::models::BroadcastTxRequest;
use crate::rawtx::transaction_decodes;
use crate::rawtx::transaction_txid_hex;
use crate::rawtx::tx_decode_ok;
use crate::rawtx::txid_hex;

verus! {

/// The branch a completed broadcast went through.
#[derive(Clone, Copy, Debug, PartialEq, Eq, Structural)]
pub enum BroadcastPath {
    /// One transaction, submitted directly.
    Single,
    /// Several transactions, accepted by the node as one atomic package.
    Atomic,
    /// Several transactions, submitted one by one after the atomic
    /// attempt was turned down.
    Sequential,
}

/// Where a broadcast session stands.
#[derive(Clone, Copy, Debug, PartialEq, Eq, Structural)]
pub enum SubmitPhase {
    /// One transaction: submit it directly.
    SingleSubmit,
    /// Several transactions: attempt one atomic package submission.
    PackageAttempt,
    /// Sequential fallback: transactions before `next` were accepted,
    /// `next` is to be submitted.
    Sequential { next: usize },
    /// The session has produced its outcome.
    Done,
}

/// The node call the session asks its caller to perform next.
#[derive(Clone, Copy, Debug, PartialEq, Eq, Structural)]
pub enum NodeAction {
    /// Submit the transaction at `index` alone.
    SendTransaction { index: usize },
    /// Submit all transactions as one atomic package.
    SubmitPackage,
    /// Nothing: the session is over.
    Finished,
}

/// What the node answered.
#[derive(Debug)]
pub enum NodeReply {
    /// A single submission was accepted under this node-assigned id.
    TxAccepted { txid: String },
    /// A single submission was rejected.
    TxRejected { error: String },
    /// The package was accepted; `txids` carries the per-transaction ids
    /// if the node's response enumerated them.
    PackageAccepted { txids: Option<Vec<String>> },
    /// The package call failed or the node does not support it.
    PackageRejected { error: String },
}

/// The result of a broadcast session.
#[derive(Debug)]
pub enum BroadcastOutcome {
    /// Every transaction was accepted.
    Completed {
        /// The per-transaction ids joined with `", "`.
        txid: String,
        /// One id per transaction, in request order.
        txids: Vec<String>,
        /// Which branch ran.
        path: BroadcastPath,
    },
    /// A sequential submission failed; nothing after it was attempted.
    Aborted {
        /// The ids accepted before the failure, in request order.
        txids: Vec<String>,
        /// The index of the transaction the node rejected.
        failed_index: usize,
        /// The node's error for that transaction.
        error: String,
    },
}

/// The views of a list of id strings.
pub open spec fn ids_view(v: Vec<String>) -> Seq<Seq<char>> {
    v@.map_values(|s: String| s@)
}

/// The ids joined with `", "`, the aggregate id form of a completed
/// broadcast.
pub open spec fn joined_ids(ids: Seq<Seq<char>>) -> Seq<char>
    decreases ids.len(),
{
    if ids.len() == 0 {
        Seq::empty()
    } else if ids.len() == 1 {
        ids[0]
    } else {
        joined_ids(ids.drop_last()) + seq![',', ' '] + ids.last()
    }
}

/// The locally computed ids of a list of raw transactions.
pub open spec fn local_txids(txs: Seq<Seq<u8>>) -> Seq<Seq<char>> {
    Seq::new(txs.len(), |i: int| txid_hex(txs[i]))
}

/// True of a hex string that carries a decodable raw transaction.
pub open spec fn tx_hex_ok(h: Seq<char>) -> bool {
    is_hex_str(h) && tx_decode_ok(hex_decoded(h))
}

/// True of a request the orchestrator accepts: at least one transaction,
/// each one decodable.
pub open spec fn submit_request_ok(hs: Seq<Seq<char>>) -> bool {
    hs.len() > 0 && (forall|i: int| 0 <= i < hs.len() ==> tx_hex_ok(#[trigger] hs[i]))
}

/// A broadcast session: the validated transactions and where the
/// submission stands.
#[derive(Debug)]
pub struct BroadcastSession {
    tx_hexes: Vec<String>,
    tx_bytes: Vec<Vec<u8>>,
    phase: SubmitPhase,
    accepted: Vec<String>,
}

impl BroadcastSession {
    /// The hex strings of the session's transactions, in request order.
    pub closed spec fn hexes(self) -> Seq<Seq<char>> {
        self.tx_hexes@.map_values(|s: String| s@)
    }

    /// The decoded bytes of the session's transactions.
    pub closed spec fn txs(self) -> Seq<Seq<u8>> {
        self.tx_bytes@.map_values(|v: Vec<u8>| v@)
    }

    /// Where the session stands.
    pub closed spec fn phase(self) -> SubmitPhase {
        self.phase
    }

    /// The node-assigned ids accepted so far on the sequential branch.
    pub closed spec fn accepted_ids(self) -> Seq<Seq<char>> {
        ids_view(self.accepted)
    }

    /// The session invariant: the byte list mirrors the hex list, every
    /// transaction decodes, and the phase agrees with the bookkeeping.
    pub closed spec fn wf(self) -> bool {
        &&& self.tx_bytes@.len() == self.tx_hexes@.len()
        &&& self.tx_hexes@.len() > 0
        &&& forall|i: int|
            0 <= i < self.tx_hexes@.len() ==> self.tx_bytes@[i]@ == hex_decoded(
                #[trigger] self.tx_hexes@[i]@,
            ) && tx_hex_ok(self.tx_hexes@[i]@)
        &&& match self.phase {
            SubmitPhase::SingleSubmit => self.tx_hexes@.len() == 1 && self.accepted@.len() == 0,
            SubmitPhase::PackageAttempt => self.tx_hexes@.len() >= 2 && self.accepted@.len() == 0,
            SubmitPhase::Sequential { next } => self.tx_hexes@.len() >= 2 && next
                < self.tx_hexes@.len() && self.accepted@.len() == next,
            SubmitPhase::Done => true,
        }
    }

    /// The node call the session waits on, determined by the phase.
    pub open spec fn spec_action(self) -> NodeAction {
        match self.phase() {
            SubmitPhase::SingleSubmit => NodeAction::SendTransaction { index: 0 },
            SubmitPhase::PackageAttempt => NodeAction::SubmitPackage,
            SubmitPhase::Sequential { next } => NodeAction::SendTransaction { index: next },
            SubmitPhase::Done => NodeAction::Finished,
        }
    }

    /// Validate a broadcast request and open a session.
    ///
    /// The request must hold at least one transaction — an empty request
    /// is a format error — and every entry must be hex carrying a
    /// decodable transaction. One transaction starts on the single
    /// branch; several start with the atomic package attempt.
    pub fn start(tx_hexes: Vec<String>) -> (r: Result<BroadcastSession, WalletError>)
        ensures
            r is Ok <==> submit_request_ok(tx_hexes@.map_values(|s: String| s@)),
            tx_hexes@.len() == 0 ==> (r matches Err(e) && e.kind is EmptyPackage),
            r matches Err(e) ==> (e.kind is EmptyPackage || e.kind is InvalidHex
                || e.kind is DecodeError) && crate::errors::is_format_kind(e.kind),
            r matches Ok(s) ==> {
                &&& s.wf()
                &&& s.hexes() == tx_hexes@.map_values(|t: String| t@)
                &&& s.accepted_ids() == Seq::<Seq<char>>::empty()
                &&& (tx_hexes@.len() == 1 ==> s.phase() is SingleSubmit)
                &&& (tx_hexes@.len() >= 2 ==> s.phase() is PackageAttempt)
            },
    {
        let ghost hs = tx_hexes@.map_values(|s: String| s@);
        if tx_hexes.len() == 0 {
            return Err(WalletError::new(ErrorKind::EmptyPackage, "transaction package is empty"));
        }
        let mut tx_bytes: Vec<Vec<u8>> = Vec::new();
        let mut i: usize = 0;
        while i < tx_hexes.len()
            invariant
                hs == tx_hexes@.map_values(|s: String| s@),
                i <= tx_hexes@.len(),
                tx_bytes@.len() == i,
                forall|j: int|
                    0 <= j < i ==> tx_bytes@[j]@ == hex_decoded(#[trigger] tx_hexes@[j]@)
                        && tx_hex_ok(tx_hexes@[j]@),
            decreases tx_hexes@.len() - i,
        {
            let bytes = match hex_to_bytes(tx_hexes[i].as_str()) {
                Ok(b) => b,
                Err(_) => {
                    proof {
                        assert(hs[i as int] == tx_hexes@[i as int]@);
                        assert(!tx_hex_ok(hs[i as int]));
                    }
                    return Err(
                        WalletError::new(ErrorKind::InvalidHex, "transaction is not valid hex"),
                    );
                },
            };
            if !transaction_decodes(bytes.as_slice()) {
                proof {
                    assert(hs[i as int] == tx_hexes@[i as int]@);
                    assert(!tx_hex_ok(hs[i as int]));
                }
                return Err(
                    WalletError::new(
                        ErrorKind::DecodeError,
                        "transaction bytes do not decode as a transaction",
                    ),
                );
            }
            tx_bytes.push(bytes);
            i = i + 1;
        }
        let phase = if tx_hexes.len() == 1 {
            SubmitPhase::SingleSubmit
        } else {
            SubmitPhase::PackageAttempt
        };
        let s = BroadcastSession { tx_hexes, tx_bytes, phase, accepted: Vec::new() };
        proof {
            assert(s.accepted_ids() =~= Seq::<Seq<char>>::empty());
            assert forall|j: int| 0 <= j < hs.len() implies tx_hex_ok(#[trigger] hs[j]) by {
                assert(hs[j] == s.tx_hexes@[j]@);
            }
        }
        Ok(s)
    }

    /// How many transactions the session carries.
    pub fn len(&self) -> (n: usize)
        ensures
            n == self.hexes().len(),
    {
        self.tx_hexes.len()
    }

    /// The hex string of the transaction at `i`, for the caller to hand
    /// to the node.
    pub fn tx_hex_at(&self, i: usize) -> (h: &String)
        requires
            i < self.hexes().len(),
        ensures
            h@ == self.hexes()[i as int],
    {
        &self.tx_hexes[i]
    }

    /// All transaction hex strings, for the atomic package call.
    pub fn tx_hexes(&self) -> (hs: &Vec<String>)
        ensures
            hs@.map_values(|s: String| s@) == self.hexes(),
    {
        &self.tx_hexes
    }

    /// The node call to perform next.
    pub fn next_action(&self) -> (a: NodeAction)
        ensures
            a == self.spec_action(),
    {
        match self.phase {
            SubmitPhase::SingleSubmit => NodeAction::SendTransaction { index: 0 },
            SubmitPhase::PackageAttempt => NodeAction::SubmitPackage,
            SubmitPhase::Sequential { next } => NodeAction::SendTransaction { index: next },
            SubmitPhase::Done => NodeAction::Finished,
        }
    }

    /// Advance the session on the node's answer to the pending action.
    ///
    /// Returns the session's outcome once there is one; `None` means the
    /// caller must perform the next action. The whole transition is
    /// pinned by [`step_ok`].
    pub fn on_reply(&mut self, reply: NodeReply) -> (out: Option<BroadcastOutcome>)
        requires
            old(self).wf(),
            reply_matches(old(self).spec_action(), reply),
        ensures
            final(self).wf(),
            step_ok(*old(self), reply, *final(self), out),
    {
        let phase = self.phase;
        match phase {
            SubmitPhase::SingleSubmit => {
                match reply {
                    NodeReply::TxAccepted { txid } => {
                        let ghost tid = txid@;
                        self.phase = SubmitPhase::Done;
                        let mut ids: Vec<String> = Vec::new();
                        ids.push(txid);
                        let agg = join_ids(&ids);
                        proof {
                            assert(ids_view(ids) =~= seq![tid]);
                        }
                        Some(
                            BroadcastOutcome::Completed {
                                txid: agg,
                                txids: ids,
                                path: BroadcastPath::Single,
                            },
                        )
                    },
                    NodeReply::TxRejected { error } => {
                        self.phase = SubmitPhase::Done;
                        let none_yet: Vec<String> = Vec::new();
                        proof {
                            assert(ids_view(none_yet) =~= Seq::<Seq<char>>::empty());
                        }
                        Some(
                            BroadcastOutcome::Aborted {
                                txids: none_yet,
                                failed_index: 0,
                                error,
                            },
                        )
                    },
                    _ => unreached(),
                }
            },
            SubmitPhase::PackageAttempt => {
                match reply {
                    NodeReply::PackageAccepted { txids } => {
                        let ids: Vec<String> = match txids {
                            Some(v) => {
                                if v.len() > 0 {
                                    v
                                } else {
                                    self.local_ids()
                                }
                            },
                            None => self.local_ids(),
                        };
                        self.phase = SubmitPhase::Done;
                        let agg = join_ids(&ids);
                        Some(
                            BroadcastOutcome::Completed {
                                txid: agg,
                                txids: ids,
                                path: BroadcastPath::Atomic,
                            },
                        )
                    },
                    NodeReply::PackageRejected { error: _ } => {
                        self.phase = SubmitPhase::Sequential { next: 0 };
                        None
                    },
                    _ => unreached(),
                }
            },
            SubmitPhase::Sequential { next } => {
                match reply {
                    NodeReply::TxAccepted { txid } => {
                        let ghost tid = txid@;
                        self.accepted.push(txid);
                        proof {
                            assert(self.accepted_ids() =~= old(self).accepted_ids().push(tid));
                        }
                        let total = self.tx_hexes.len();
                        if next + 1 == total {
                            self.phase = SubmitPhase::Done;
                            let ids = clone_ids(&self.accepted);
                            let agg = join_ids(&ids);
                            Some(
                                BroadcastOutcome::Completed {
                                    txid: agg,
                                    txids: ids,
                                    path: BroadcastPath::Sequential,
                                },
                            )
                        } else {
                            self.phase = SubmitPhase::Sequential { next: next + 1 };
                            None
                        }
                    },
                    NodeReply::TxRejected { error } => {
                        self.phase = SubmitPhase::Done;
                        let ids = clone_ids(&self.accepted);
                        Some(
                            BroadcastOutcome::Aborted { txids: ids, failed_index: next, error },
                        )
                    },
                    _ => unreached(),
                }
            },
            SubmitPhase::Done => unreached(),
        }
    }

    /// Compute each transaction's id locally from its bytes, in request
    /// order.
    fn local_ids(&self) -> (ids: Vec<String>)
        requires
            self.wf(),
        ensures
            ids_view(ids) == local_txids(self.txs()),
    {
        let mut ids: Vec<String> = Vec::new();
        let mut i: usize = 0;
        while i < self.tx_bytes.len()
            invariant
                self.wf(),
                i <= self.tx_bytes@.len(),
                ids@.len() == i,
                forall|j: int| 0 <= j < i ==> #[trigger] ids@[j]@ == txid_hex(self.txs()[j]),
            decreases self.tx_bytes@.len() - i,
        {
            proof {
                assert(self.txs()[i as int] == self.tx_bytes@[i as int]@);
                assert(self.hexes()[i as int] == self.tx_hexes@[i as int]@);
            }
            let id = match transaction_txid_hex(self.tx_bytes[i].as_slice()) {
                Some(t) => t,
                None => unreached(),
            };
            ids.push(id);
            i = i + 1;
        }
        proof {
            assert(ids_view(ids) =~= local_txids(self.txs()));
        }
        ids
    }
}

/// True when the reply answers the pending action.
pub open spec fn reply_matches(a: NodeAction, reply: NodeReply) -> bool {
    match reply {
        NodeReply::TxAccepted { .. } => a is SendTransaction,
        NodeReply::TxRejected { .. } => a is SendTransaction,
        NodeReply::PackageAccepted { .. } => a is SubmitPackage,
        NodeReply::PackageRejected { .. } => a is SubmitPackage,
    }
}

/// The per-transaction ids a package completion reports: the node's, if
/// its response enumerated any, else the locally computed ones.
pub open spec fn package_ids(txs: Seq<Seq<u8>>, reported: Option<Vec<String>>) -> Seq<Seq<char>> {
    match reported {
        Some(v) => if v@.len() > 0 {
            ids_view(v)
        } else {
            local_txids(txs)
        },
        None => local_txids(txs),
    }
}

/// The transition relation of a broadcast session: everything
/// `on_reply` does to the session and everything its outcome holds.
pub open spec fn step_ok(
    pre: BroadcastSession,
    reply: NodeReply,
    post: BroadcastSession,
    out: Option<BroadcastOutcome>,
) -> bool {
    &&& post.hexes() == pre.hexes()
    &&& post.txs() == pre.txs()
    &&& match pre.phase() {
        SubmitPhase::SingleSubmit => match reply {
            NodeReply::TxAccepted { txid } => {
                &&& post.phase() is Done
                &&& post.accepted_ids() == pre.accepted_ids()
                &&& out matches Some(BroadcastOutcome::Completed { txid: agg, txids, path })
                    && ids_view(txids) == seq![txid@] && agg@ == joined_ids(seq![txid@])
                    && path is Single
            },
            NodeReply::TxRejected { error } => {
                &&& post.phase() is Done
                &&& post.accepted_ids() == pre.accepted_ids()
                &&& out matches Some(BroadcastOutcome::Aborted { txids, failed_index, error: e })
                    && ids_view(txids) == Seq::<Seq<char>>::empty() && failed_index == 0 && e@
                    == error@
            },
            _ => false,
        },
        SubmitPhase::PackageAttempt => match reply {
            NodeReply::PackageAccepted { txids: reported } => {
                &&& post.phase() is Done
                &&& post.accepted_ids() == pre.accepted_ids()
                &&& out matches Some(BroadcastOutcome::Completed { txid: agg, txids, path })
                    && ids_view(txids) == package_ids(pre.txs(), reported) && agg@ == joined_ids(
                    package_ids(pre.txs(), reported),
                ) && path is Atomic
            },
            NodeReply::PackageRejected { .. } => {
                &&& post.phase() == (SubmitPhase::Sequential { next: 0 })
                &&& post.accepted_ids() == pre.accepted_ids()
                &&& out is None
            },
            _ => false,
        },
        SubmitPhase::Sequential { next } => match reply {
            NodeReply::TxAccepted { txid } => {
                &&& post.accepted_ids() == pre.accepted_ids().push(txid@)
                &&& if next + 1 == pre.hexes().len() {
                    &&& post.phase() is Done
                    &&& out matches Some(BroadcastOutcome::Completed { txid: agg, txids, path })
                        && ids_view(txids) == pre.accepted_ids().push(txid@) && agg@ == joined_ids(
                        pre.accepted_ids().push(txid@),
                    ) && path is Sequential
                } else {
                    &&& post.phase() == (SubmitPhase::Sequential { next: (next + 1) as usize })
                    &&& out is None
                }
            },
            NodeReply::TxRejected { error } => {
                &&& post.phase() is Done
                &&& post.accepted_ids() == pre.accepted_ids()
                &&& out matches Some(BroadcastOutcome::Aborted { txids, failed_index, error: e })
                    && ids_view(txids) == pre.accepted_ids() && failed_index == next && e@
                    == error@
            },
            _ => false,
        },
        SubmitPhase::Done => false,
    }
}

/// Copy a list of id strings; the copy reads back identically.
fn clone_ids(v: &Vec<String>) -> (r: Vec<String>)
    ensures
        ids_view(r) == ids_view(*v),
        r@ == v@,
{
    let mut r: Vec<String> = Vec::new();
    let mut i: usize = 0;
    while i < v.len()
        invariant
            i <= v@.len(),
            r@.len() == i,
            forall|j: int| 0 <= j < i ==> #[trigger] r@[j] == v@[j],
        decreases v@.len() - i,
    {
        r.push(v[i].clone());
        i = i + 1;
    }
    proof {
        assert(r@ =~= v@);
    }
    r
}

/// Join ids with `", "`, the aggregate id of a completed broadcast.
pub fn join_ids(ids: &Vec<String>) -> (r: String)
    ensures
        r@ == joined_ids(ids_view(*ids)),
{
    let mut out = String::new();
    let mut i: usize = 0;
    while i < ids.len()
        invariant
            i <= ids@.len(),
            out@ == joined_ids(ids_view(*ids).subrange(0, i as int)),
        decreases ids@.len() - i,
    {
        if i > 0 {
            out.append(", ");
        }
        out.append(ids[i].as_str());
        proof {
            reveal_strlit(", ");
            let iv = ids_view(*ids);
            assert(iv.subrange(0, i + 1 as int).drop_last() =~= iv.subrange(0, i as int));
            assert(iv.subrange(0, i + 1 as int).last() == iv[i as int]);
            if i == 0 {
                assert(out@ =~= joined_ids(iv.subrange(0, 1)));
            } else {
                assert(out@ =~= joined_ids(iv.subrange(0, i as int)) + seq![',', ' ']
                    + iv[i as int]);
            }
        }
        i = i + 1;
    }
    proof {
        assert(ids_view(*ids).subrange(0, ids@.len() as int) =~= ids_view(*ids));
    }
    out
}

/// The ordered transaction list a broadcast request stands for: the
/// package exactly as submitted when one is present — an empty package
/// is then an empty request, which [`BroadcastSession::start`] rejects
/// as a format error, and a one-entry package submits that entry — else
/// the single `tx_hex` on its own.
pub fn request_txs(req: BroadcastTxRequest) -> (r: Vec<String>)
    ensures
        req.tx_package matches Some(p) ==> r@ == p@,
        req.tx_package is None ==> r@.len() == 1 && r@[0]@ == req.tx_hex@,
{
    let BroadcastTxRequest { tx_hex, tx_package } = req;
    match tx_package {
        Some(p) => p,
        None => {
            let mut v: Vec<String> = Vec::new();
            v.push(tx_hex);
            v
        },
    }
}

/// A one-transaction request always runs the single-submit branch: the
/// pending action is the direct submission of transaction 0, one reply
/// settles the session, and a completion reports the single path.
pub proof fn lemma_single_path(
    pre: BroadcastSession,
    reply: NodeReply,
    post: BroadcastSession,
    out: Option<BroadcastOutcome>,
)
    requires
        pre.wf(),
        pre.phase() is SingleSubmit,
        step_ok(pre, reply, post, out),
    ensures
        pre.spec_action() == (NodeAction::SendTransaction { index: 0 }),
        post.phase() is Done,
        post.spec_action() is Finished,
        out is Some,
        out matches Some(BroadcastOutcome::Completed { path, .. }) ==> path is Single,
{
}

/// A request of several transactions attempts the atomic package first;
/// when the node turns it down, the fallback begins with transaction 0
/// and nothing has been submitted yet.
pub proof fn lemma_package_then_fallback(
    pre: BroadcastSession,
    error: String,
    post: BroadcastSession,
    out: Option<BroadcastOutcome>,
)
    requires
        pre.wf(),
        pre.phase() is PackageAttempt,
        step_ok(pre, NodeReply::PackageRejected { error }, post, out),
    ensures
        pre.spec_action() is SubmitPackage,
        out is None,
        post.spec_action() == (NodeAction::SendTransaction { index: 0 }),
        post.accepted_ids().len() == 0,
{
}

/// The sequential fallback walks the request strictly in order: after
/// the node accepts transaction `next`, the session asks for `next + 1`,
/// or finishes when that was the last one.
pub proof fn lemma_sequential_order(
    pre: BroadcastSession,
    txid: String,
    post: BroadcastSession,
    out: Option<BroadcastOutcome>,
)
    requires
        pre.wf(),
        pre.phase() matches SubmitPhase::Sequential { next },
        step_ok(pre, NodeReply::TxAccepted { txid }, post, out),
    ensures
        pre.phase() matches SubmitPhase::Sequential { next } ==> {
            &&& pre.spec_action() == (NodeAction::SendTransaction { index: next })
            &&& (next + 1 < pre.hexes().len() ==> post.spec_action() == (
            NodeAction::SendTransaction { index: (next + 1) as usize }) && out is None)
            &&& (next + 1 == pre.hexes().len() ==> post.spec_action() is Finished
                && out is Some)
        },
{
}

/// A failure on the sequential branch stops the session at once and
/// reports exactly the ids accepted before it, together with the failing
/// index and the node's error: partial success is never hidden, and
/// nothing further is submitted.
pub proof fn lemma_abort_reports_partial(
    pre: BroadcastSession,
    error: String,
    post: BroadcastSession,
    out: Option<BroadcastOutcome>,
)
    requires
        pre.wf(),
        pre.phase() matches SubmitPhase::Sequential { next },
        step_ok(pre, NodeReply::TxRejected { error }, post, out),
    ensures
        post.spec_action() is Finished,
        pre.phase() matches SubmitPhase::Sequential { next } ==> (out matches Some(
            BroadcastOutcome::Aborted { txids, failed_index, error: e },
        ) && ids_view(txids) == pre.accepted_ids() && ids_view(txids).len() == next
            && failed_index == next && e@ == error@),
{
}

/// Individual submissions of a multi-transaction request happen only
/// after the node turned the atomic package down: the sequential branch
/// is entered by a package rejection and nothing else, and a fresh
/// session for several transactions always asks for the package first.
pub proof fn lemma_sequential_only_after_package_rejection(
    pre: BroadcastSession,
    reply: NodeReply,
    post: BroadcastSession,
    out: Option<BroadcastOutcome>,
)
    requires
        pre.wf(),
        step_ok(pre, reply, post, out),
    ensures
        post.phase() == (SubmitPhase::Sequential { next: 0 }) && pre.phase() !is Sequential
            ==> pre.phase() is PackageAttempt && reply is PackageRejected,
        post.phase() matches SubmitPhase::Sequential { next } ==> (next > 0
            ==> pre.phase() is Sequential && reply is TxAccepted),
{
}

/// No transaction index is ever asked for twice: every step either ends
/// the session or moves the pending submission index strictly forward,
/// so a transaction the node has already answered for is never
/// resubmitted by the orchestrator.
pub proof fn lemma_no_resubmission(
    pre: BroadcastSession,
    reply: NodeReply,
    post: BroadcastSession,
    out: Option<BroadcastOutcome>,
)
    requires
        pre.wf(),
        step_ok(pre, reply, post, out),
    ensures
        pre.phase() !is Done,
        forall|i: usize, j: usize|
            pre.spec_action() == (NodeAction::SendTransaction { index: i })
                && post.spec_action() == (NodeAction::SendTransaction { index: j }) ==> j > i,
{
    assert forall|i: usize, j: usize|
        pre.spec_action() == (NodeAction::SendTransaction { index: i }) && post.spec_action()
            == (NodeAction::SendTransaction { index: j }) implies j > i by {
        match pre.phase() {
            SubmitPhase::SingleSubmit => {
                assert(post.phase() is Done);
            },
            SubmitPhase::Sequential { next } => {
                assert(i == next);
                vstd::std_specs::vec::axiom_spec_len(&pre.tx_hexes);
                assert(next + 1 <= usize::MAX);
            },
            _ => {},
        }
    }
}

} // verus!
