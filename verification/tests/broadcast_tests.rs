use bitcoin::absolute::LockTime;
use bitcoin::transaction::Version;
use bitcoin::Amount;
use bitcoin::OutPoint;
use bitcoin::ScriptBuf;
use bitcoin::Sequence;
use bitcoin::Transaction;
use bitcoin::TxIn;
use bitcoin::TxOut;
use bitcoin::Witness;

use spell_wallet::broadcast::join_ids;
use spell_wallet::broadcast::request_txs;
use spell_wallet::broadcast::BroadcastOutcome;
use spell_wallet::broadcast::BroadcastPath;
use spell_wallet::broadcast::BroadcastSession;
use spell_wallet::broadcast::NodeAction;
use spell_wallet::broadcast::NodeReply;
use spell_wallet::errors::ErrorKind;
use spell_wallet::models::BroadcastTxRequest;

fn sample_tx(sats: u64) -> Transaction {
    Transaction {
        version: Version::TWO,
        lock_time: LockTime::ZERO,
        input: vec![TxIn {
            previous_output: OutPoint::null(),
            script_sig: ScriptBuf::new(),
            sequence: Sequence::MAX,
            witness: Witness::new(),
        }],
        output: vec![TxOut {
            value: Amount::from_sat(sats),
            script_pubkey: ScriptBuf::new(),
        }],
    }
}

fn sample_tx_hex(sats: u64) -> String {
    bitcoin::consensus::encode::serialize_hex(&sample_tx(sats))
}

#[test]
fn empty_request_is_a_format_error() {
    let e = BroadcastSession::start(vec![]).unwrap_err();
    assert_eq!(e.kind(), ErrorKind::EmptyPackage);
}

#[test]
fn bad_hex_and_bad_bytes_are_rejected() {
    let e = BroadcastSession::start(vec!["zz".to_string()]).unwrap_err();
    assert_eq!(e.kind(), ErrorKind::InvalidHex);
    let e = BroadcastSession::start(vec!["00".to_string()]).unwrap_err();
    assert_eq!(e.kind(), ErrorKind::DecodeError);
    let e = BroadcastSession::start(vec![sample_tx_hex(1), "zz".to_string()]).unwrap_err();
    assert_eq!(e.kind(), ErrorKind::InvalidHex);
}

#[test]
fn single_transaction_takes_the_single_path() {
    let mut s = BroadcastSession::start(vec![sample_tx_hex(1000)]).unwrap();
    assert_eq!(s.next_action(), NodeAction::SendTransaction { index: 0 });
    let out = s.on_reply(NodeReply::TxAccepted { txid: "abc123".to_string() });
    match out {
        Some(BroadcastOutcome::Completed { txid, txids, path }) => {
            assert_eq!(path, BroadcastPath::Single);
            assert_eq!(txid, "abc123");
            assert_eq!(txids, vec!["abc123".to_string()]);
        }
        other => panic!("unexpected outcome: {:?}", other),
    }
    assert_eq!(s.next_action(), NodeAction::Finished);
}

#[test]
fn single_rejection_reports_the_failure() {
    let mut s = BroadcastSession::start(vec![sample_tx_hex(1000)]).unwrap();
    let out = s.on_reply(NodeReply::TxRejected { error: "missing inputs".to_string() });
    match out {
        Some(BroadcastOutcome::Aborted { txids, failed_index, error }) => {
            assert!(txids.is_empty());
            assert_eq!(failed_index, 0);
            assert_eq!(error, "missing inputs");
        }
        other => panic!("unexpected outcome: {:?}", other),
    }
    assert_eq!(s.next_action(), NodeAction::Finished);
}

#[test]
fn resubmitting_a_single_transaction_returns_the_node_id_again() {
    let hex = sample_tx_hex(1000);
    for _ in 0..2 {
        let mut s = BroadcastSession::start(vec![hex.clone()]).unwrap();
        assert_eq!(s.next_action(), NodeAction::SendTransaction { index: 0 });
        let out = s.on_reply(NodeReply::TxAccepted { txid: "same-id".to_string() });
        match out {
            Some(BroadcastOutcome::Completed { txid, .. }) => assert_eq!(txid, "same-id"),
            other => panic!("unexpected outcome: {:?}", other),
        }
        // The session is over: no further submission is ever requested.
        assert_eq!(s.next_action(), NodeAction::Finished);
    }
}

#[test]
fn package_is_attempted_atomically_first() {
    let s = BroadcastSession::start(vec![sample_tx_hex(1), sample_tx_hex(2)]).unwrap();
    assert_eq!(s.next_action(), NodeAction::SubmitPackage);
}

#[test]
fn atomic_success_uses_the_node_reported_ids() {
    let mut s = BroadcastSession::start(vec![sample_tx_hex(1), sample_tx_hex(2)]).unwrap();
    let out = s.on_reply(NodeReply::PackageAccepted {
        txids: Some(vec!["id-a".to_string(), "id-b".to_string()]),
    });
    match out {
        Some(BroadcastOutcome::Completed { txid, txids, path }) => {
            assert_eq!(path, BroadcastPath::Atomic);
            assert_eq!(txids, vec!["id-a".to_string(), "id-b".to_string()]);
            assert_eq!(txid, "id-a, id-b");
        }
        other => panic!("unexpected outcome: {:?}", other),
    }
    assert_eq!(s.next_action(), NodeAction::Finished);
}

#[test]
fn atomic_success_without_ids_computes_them_locally() {
    let tx1 = sample_tx(1);
    let tx2 = sample_tx(2);
    let hexes = vec![
        bitcoin::consensus::encode::serialize_hex(&tx1),
        bitcoin::consensus::encode::serialize_hex(&tx2),
    ];
    let mut s = BroadcastSession::start(hexes).unwrap();
    let out = s.on_reply(NodeReply::PackageAccepted { txids: None });
    match out {
        Some(BroadcastOutcome::Completed { txids, path, .. }) => {
            assert_eq!(path, BroadcastPath::Atomic);
            assert_eq!(
                txids,
                vec![tx1.compute_txid().to_string(), tx2.compute_txid().to_string()]
            );
        }
        other => panic!("unexpected outcome: {:?}", other),
    }
}

#[test]
fn fallback_submits_strictly_in_order() {
    let mut s = BroadcastSession::start(vec![sample_tx_hex(1), sample_tx_hex(2)]).unwrap();
    assert_eq!(s.next_action(), NodeAction::SubmitPackage);
    let out = s.on_reply(NodeReply::PackageRejected {
        error: "submitpackage is not supported".to_string(),
    });
    assert!(out.is_none());
    assert_eq!(s.next_action(), NodeAction::SendTransaction { index: 0 });
    let out = s.on_reply(NodeReply::TxAccepted { txid: "first".to_string() });
    assert!(out.is_none());
    assert_eq!(s.next_action(), NodeAction::SendTransaction { index: 1 });
    let out = s.on_reply(NodeReply::TxAccepted { txid: "second".to_string() });
    match out {
        Some(BroadcastOutcome::Completed { txid, txids, path }) => {
            assert_eq!(path, BroadcastPath::Sequential);
            assert_eq!(txids, vec!["first".to_string(), "second".to_string()]);
            assert_eq!(txid, "first, second");
        }
        other => panic!("unexpected outcome: {:?}", other),
    }
    assert_eq!(s.next_action(), NodeAction::Finished);
}

#[test]
fn fallback_failure_reports_partial_success_and_stops() {
    let mut s = BroadcastSession::start(vec![sample_tx_hex(1), sample_tx_hex(2)]).unwrap();
    s.on_reply(NodeReply::PackageRejected { error: "unsupported".to_string() });
    s.on_reply(NodeReply::TxAccepted { txid: "first".to_string() });
    let out = s.on_reply(NodeReply::TxRejected { error: "bad-txns".to_string() });
    match out {
        Some(BroadcastOutcome::Aborted { txids, failed_index, error }) => {
            assert_eq!(txids, vec!["first".to_string()]);
            assert_eq!(failed_index, 1);
            assert_eq!(error, "bad-txns");
        }
        other => panic!("unexpected outcome: {:?}", other),
    }
    // Nothing further is submitted after the failure.
    assert_eq!(s.next_action(), NodeAction::Finished);
}

#[test]
fn immediate_fallback_failure_reports_no_successes() {
    let mut s = BroadcastSession::start(vec![sample_tx_hex(1), sample_tx_hex(2)]).unwrap();
    s.on_reply(NodeReply::PackageRejected { error: "unsupported".to_string() });
    let out = s.on_reply(NodeReply::TxRejected { error: "bad-txns".to_string() });
    match out {
        Some(BroadcastOutcome::Aborted { txids, failed_index, .. }) => {
            assert!(txids.is_empty());
            assert_eq!(failed_index, 0);
        }
        other => panic!("unexpected outcome: {:?}", other),
    }
}

#[test]
fn three_transactions_fall_back_in_order() {
    let mut s =
        BroadcastSession::start(vec![sample_tx_hex(1), sample_tx_hex(2), sample_tx_hex(3)])
            .unwrap();
    assert_eq!(s.next_action(), NodeAction::SubmitPackage);
    s.on_reply(NodeReply::PackageRejected { error: "unsupported".to_string() });
    for (i, id) in ["one", "two", "three"].iter().enumerate() {
        assert_eq!(s.next_action(), NodeAction::SendTransaction { index: i });
        let out = s.on_reply(NodeReply::TxAccepted { txid: id.to_string() });
        if i < 2 {
            assert!(out.is_none());
        } else {
            match out {
                Some(BroadcastOutcome::Completed { txid, txids, path }) => {
                    assert_eq!(path, BroadcastPath::Sequential);
                    assert_eq!(txids, vec!["one", "two", "three"]);
                    assert_eq!(txid, "one, two, three");
                }
                other => panic!("unexpected outcome: {:?}", other),
            }
        }
    }
}

#[test]
fn atomic_success_with_empty_id_list_computes_locally() {
    let tx1 = sample_tx(1);
    let tx2 = sample_tx(2);
    let hexes = vec![
        bitcoin::consensus::encode::serialize_hex(&tx1),
        bitcoin::consensus::encode::serialize_hex(&tx2),
    ];
    let mut s = BroadcastSession::start(hexes).unwrap();
    let out = s.on_reply(NodeReply::PackageAccepted { txids: Some(vec![]) });
    match out {
        Some(BroadcastOutcome::Completed { txids, .. }) => {
            assert_eq!(
                txids,
                vec![tx1.compute_txid().to_string(), tx2.compute_txid().to_string()]
            );
        }
        other => panic!("unexpected outcome: {:?}", other),
    }
}

#[test]
fn request_mapping_uses_a_present_package_as_given() {
    let r = request_txs(BroadcastTxRequest {
        tx_hex: "aa".to_string(),
        tx_package: Some(vec!["bb".to_string(), "cc".to_string()]),
    });
    assert_eq!(r, vec!["bb".to_string(), "cc".to_string()]);

    let r = request_txs(BroadcastTxRequest {
        tx_hex: "aa".to_string(),
        tx_package: Some(vec!["bb".to_string()]),
    });
    assert_eq!(r, vec!["bb".to_string()]);

    let r = request_txs(BroadcastTxRequest {
        tx_hex: "aa".to_string(),
        tx_package: Some(vec![]),
    });
    assert_eq!(r, Vec::<String>::new());

    let r = request_txs(BroadcastTxRequest { tx_hex: "aa".to_string(), tx_package: None });
    assert_eq!(r, vec!["aa".to_string()]);
}

#[test]
fn explicitly_empty_package_fails_before_any_submission() {
    let txs = request_txs(BroadcastTxRequest {
        tx_hex: sample_tx_hex(1000),
        tx_package: Some(vec![]),
    });
    let e = BroadcastSession::start(txs).unwrap_err();
    assert_eq!(e.kind(), ErrorKind::EmptyPackage);
}

#[test]
fn one_entry_package_submits_that_entry() {
    let entry = sample_tx_hex(7);
    let txs = request_txs(BroadcastTxRequest {
        tx_hex: "00".to_string(),
        tx_package: Some(vec![entry.clone()]),
    });
    assert_eq!(txs, vec![entry]);
    let s = BroadcastSession::start(txs).unwrap();
    assert_eq!(s.next_action(), NodeAction::SendTransaction { index: 0 });
}

#[test]
fn join_ids_writes_the_aggregate_form() {
    assert_eq!(join_ids(&vec![]), "");
    assert_eq!(join_ids(&vec!["a".to_string()]), "a");
    assert_eq!(join_ids(&vec!["a".to_string(), "b".to_string(), "c".to_string()]), "a, b, c");
}
