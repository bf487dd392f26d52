use near_greeting::encode::encode_transaction;
use near_greeting::error::NearError;
use near_greeting::json::set_greeting_args;
use near_greeting::submit::{
    build_and_sign, on_event, start_submission, BroadcastReport, FinalStatus, GatewayEvent,
    SubmissionAction, SubmissionRequest, SubmissionResult, SubmissionState,
};
use near_greeting::types::{FunctionCallAction, UnsignedTransaction};
use near_primitives::borsh;
use near_primitives::borsh::BorshDeserialize;
use std::str::FromStr;

fn test_key() -> (String, Vec<u8>) {
    let sk = near_crypto::SecretKey::from_random(near_crypto::KeyType::ED25519);
    let pk = borsh::to_vec(&sk.public_key()).unwrap();
    (sk.to_string(), pk)
}

fn sample_request(private_key: String) -> SubmissionRequest {
    SubmissionRequest {
        signer_id: "alice.testnet".to_string(),
        private_key,
        receiver_id: "greeting.testnet".to_string(),
        method_name: "set_greeting".to_string(),
        args: set_greeting_args("hi"),
        gas: 30_000_000_000_000,
        deposit: 0,
    }
}

fn success_report(gas_burnt: u64) -> BroadcastReport {
    BroadcastReport {
        transaction_hash: "4mBz7BRKUBqcGgBQV6qLuGfeAFqmab5wKKoqfsUN1DH7".to_string(),
        block_hash: "9cVuwLqHquAaKC24e8BUVk6WCdmAgqMeMRpzdBVgLgqP".to_string(),
        gas_burnt,
        status: FinalStatus::SuccessValue(b"".to_vec()),
    }
}

#[test]
fn encoding_matches_wire_reference() {
    let (_key, pk) = test_key();
    let tx = UnsignedTransaction {
        signer_id: "alice.testnet".to_string(),
        public_key: pk.clone(),
        nonce: 42,
        receiver_id: "greeting.testnet".to_string(),
        block_hash: vec![7u8; 32],
        actions: vec![FunctionCallAction {
            method_name: "set_greeting".to_string(),
            args: b"{\"greeting\":\"hi\"}".to_vec(),
            gas: 30_000_000_000_000,
            deposit: 1,
        }],
    };
    let mine = encode_transaction(&tx).unwrap();
    let near_pk = near_crypto::PublicKey::try_from_slice(&pk).unwrap();
    let reference = near_primitives::transaction::Transaction::V0(
        near_primitives::transaction::TransactionV0 {
            signer_id: near_primitives::types::AccountId::from_str("alice.testnet").unwrap(),
            public_key: near_pk,
            nonce: 42,
            receiver_id: near_primitives::types::AccountId::from_str("greeting.testnet").unwrap(),
            block_hash: near_primitives::hash::CryptoHash([7u8; 32]),
            actions: vec![near_primitives::transaction::Action::FunctionCall(Box::new(
                near_primitives::transaction::FunctionCallAction {
                    method_name: "set_greeting".to_string(),
                    args: b"{\"greeting\":\"hi\"}".to_vec(),
                    gas: near_primitives::gas::Gas::from_gas(30_000_000_000_000),
                    deposit: near_primitives::types::Balance::from_yoctonear(1),
                },
            ))],
        },
    );
    let expected = borsh::to_vec(&reference).unwrap();
    assert_eq!(mine, expected);
}

#[test]
fn encoding_is_deterministic() {
    let (_key, pk) = test_key();
    let make = || UnsignedTransaction {
        signer_id: "alice.testnet".to_string(),
        public_key: pk.clone(),
        nonce: 7,
        receiver_id: "bob.testnet".to_string(),
        block_hash: vec![1u8; 32],
        actions: vec![FunctionCallAction {
            method_name: "set_greeting".to_string(),
            args: set_greeting_args("hello"),
            gas: 30_000_000_000_000,
            deposit: 0,
        }],
    };
    let a = encode_transaction(&make()).unwrap();
    let b = encode_transaction(&make()).unwrap();
    assert_eq!(a, b);
}

#[test]
fn encoding_rejects_bad_block_hash() {
    let (_key, pk) = test_key();
    let tx = UnsignedTransaction {
        signer_id: "alice.testnet".to_string(),
        public_key: pk,
        nonce: 7,
        receiver_id: "bob.testnet".to_string(),
        block_hash: vec![1u8; 31],
        actions: vec![],
    };
    match encode_transaction(&tx) {
        Err(NearError::EncodingError(_)) => {}
        _ => panic!("a 31-byte block hash must be an encoding error"),
    }
}

#[test]
fn end_to_end_submission_success() {
    let (key, pk) = test_key();
    let req = sample_request(key);
    let state = start_submission(&req).unwrap();
    let (state, act) = on_event(&req, state, GatewayEvent::BlockHashFetched(vec![9u8; 32]));
    assert!(matches!(act, SubmissionAction::Wait));
    let (state, act) = on_event(&req, state, GatewayEvent::NonceFetched(41));
    let bytes = match &act {
        SubmissionAction::Broadcast(b) => b.clone(),
        _ => panic!("both reads are in: a broadcast must be issued"),
    };
    let signed =
        near_primitives::transaction::SignedTransaction::try_from_slice(&bytes).unwrap();
    let tx = signed.transaction.clone();
    assert_eq!(tx.nonce().nonce(), 42);
    assert_eq!(tx.signer_id().as_str(), "alice.testnet");
    assert_eq!(tx.receiver_id().as_str(), "greeting.testnet");
    assert_eq!(borsh::to_vec(tx.public_key()).unwrap(), pk);
    let (hash, _size) = tx.get_hash_and_size();
    assert!(signed.signature.verify(hash.as_ref(), tx.public_key()));
    let (state, act) = on_event(&req, state, GatewayEvent::Finalized(success_report(2_428_000)));
    assert!(matches!(act, SubmissionAction::Stop));
    match state {
        SubmissionState::Finished(SubmissionResult::Completed(tr)) => {
            assert_eq!(tr.status, "Success");
            assert!(tr.gas_burnt > 0);
            assert_eq!(tr.transaction_hash, "4mBz7BRKUBqcGgBQV6qLuGfeAFqmab5wKKoqfsUN1DH7");
            assert_eq!(tr.block_hash, "9cVuwLqHquAaKC24e8BUVk6WCdmAgqMeMRpzdBVgLgqP");
            assert_eq!(tr.message, "Successfully updated greeting");
        }
        _ => panic!("expected a completed run"),
    }
}

#[test]
fn reads_complete_in_either_order() {
    let (key, _pk) = test_key();
    let req = sample_request(key);
    let state = start_submission(&req).unwrap();
    let (state, act) = on_event(&req, state, GatewayEvent::NonceFetched(5));
    assert!(matches!(act, SubmissionAction::Wait));
    let (_state, act) = on_event(&req, state, GatewayEvent::BlockHashFetched(vec![3u8; 32]));
    match act {
        SubmissionAction::Broadcast(bytes) => {
            let signed =
                near_primitives::transaction::SignedTransaction::try_from_slice(&bytes).unwrap();
            assert_eq!(signed.transaction.nonce().nonce(), 6);
        }
        _ => panic!("both reads are in: a broadcast must be issued"),
    }
}

#[test]
fn contract_failure_is_a_failed_result_not_an_error() {
    let (key, _pk) = test_key();
    let req = sample_request(key);
    let state = start_submission(&req).unwrap();
    let (state, _) = on_event(&req, state, GatewayEvent::BlockHashFetched(vec![9u8; 32]));
    let (state, _) = on_event(&req, state, GatewayEvent::NonceFetched(41));
    let report = BroadcastReport {
        transaction_hash: "tx".to_string(),
        block_hash: "blk".to_string(),
        gas_burnt: 1_500_000,
        status: FinalStatus::Failure("Smart contract panicked: oh no".to_string()),
    };
    let (state, act) = on_event(&req, state, GatewayEvent::Finalized(report));
    assert!(matches!(act, SubmissionAction::Stop));
    match state {
        SubmissionState::Finished(SubmissionResult::Completed(tr)) => {
            assert_eq!(tr.status, "Failed");
            assert_eq!(tr.gas_burnt, 1_500_000);
            assert_eq!(tr.message, "Transaction failed: Smart contract panicked: oh no");
        }
        _ => panic!("a contract-level failure must still be a completed run"),
    }
}

#[test]
fn unknown_status_is_preserved_not_coerced() {
    let (key, _pk) = test_key();
    let req = sample_request(key);
    let state = start_submission(&req).unwrap();
    let (state, _) = on_event(&req, state, GatewayEvent::BlockHashFetched(vec![9u8; 32]));
    let (state, _) = on_event(&req, state, GatewayEvent::NonceFetched(41));
    let report = BroadcastReport {
        transaction_hash: "tx".to_string(),
        block_hash: "blk".to_string(),
        gas_burnt: 9,
        status: FinalStatus::Other("Started".to_string()),
    };
    let (state, _) = on_event(&req, state, GatewayEvent::Finalized(report));
    match state {
        SubmissionState::Finished(SubmissionResult::Completed(tr)) => {
            assert_eq!(tr.status, "Unknown");
            assert_eq!(tr.gas_burnt, 9);
            assert_eq!(tr.message, "Unexpected transaction status: Started");
        }
        _ => panic!("an unknown status must still be a completed run"),
    }
}

#[test]
fn transport_loss_after_send_is_indeterminate() {
    let (key, _pk) = test_key();
    let req = sample_request(key);
    let state = start_submission(&req).unwrap();
    let (state, _) = on_event(&req, state, GatewayEvent::BlockHashFetched(vec![9u8; 32]));
    let (state, act) = on_event(&req, state, GatewayEvent::NonceFetched(41));
    assert!(matches!(act, SubmissionAction::Broadcast(_)));
    let (state, act) = on_event(
        &req,
        state,
        GatewayEvent::BroadcastInterrupted("connection reset".to_string()),
    );
    assert!(matches!(act, SubmissionAction::Stop));
    match state {
        SubmissionState::Finished(SubmissionResult::Indeterminate(m)) => {
            assert_eq!(m, "connection reset");
        }
        _ => panic!("transport loss after the send must be indeterminate"),
    }
}

#[test]
fn stale_nonce_rejection_surfaces_and_is_not_retried() {
    let (key, _pk) = test_key();
    let req = sample_request(key);
    // Two runs capture the same nonce; the node accepts the first and
    // rejects the second with its own response shape.
    let first = start_submission(&req).unwrap();
    let (first, _) = on_event(&req, first, GatewayEvent::BlockHashFetched(vec![9u8; 32]));
    let (first, _) = on_event(&req, first, GatewayEvent::NonceFetched(41));
    let (_first, _) = on_event(&req, first, GatewayEvent::Finalized(success_report(1_000)));
    let second = start_submission(&req).unwrap();
    let (second, _) = on_event(&req, second, GatewayEvent::BlockHashFetched(vec![9u8; 32]));
    let (second, act) = on_event(&req, second, GatewayEvent::NonceFetched(41));
    assert!(matches!(act, SubmissionAction::Broadcast(_)));
    let (second, act) = on_event(
        &req,
        second,
        GatewayEvent::BroadcastRejected("InvalidNonce: used 42".to_string()),
    );
    assert!(matches!(act, SubmissionAction::Stop));
    match &second {
        SubmissionState::Finished(SubmissionResult::Aborted(NearError::ContractError(m))) => {
            assert_eq!(m, "InvalidNonce: used 42");
        }
        _ => panic!("a definitive rejection must surface as the node reported it"),
    }
    // The run is over: no later event can trigger another broadcast.
    let (second, act) = on_event(&req, second, GatewayEvent::NonceFetched(41));
    assert!(matches!(act, SubmissionAction::Stop));
    let (_second, act) = on_event(&req, second, GatewayEvent::BlockHashFetched(vec![9u8; 32]));
    assert!(matches!(act, SubmissionAction::Stop));
}

#[test]
fn read_failures_abort_before_anything_is_signed() {
    let (key, _pk) = test_key();
    let req = sample_request(key);
    let state = start_submission(&req).unwrap();
    let (state, act) = on_event(
        &req,
        state,
        GatewayEvent::TransportFailed("connection refused".to_string()),
    );
    assert!(matches!(act, SubmissionAction::Stop));
    match state {
        SubmissionState::Finished(SubmissionResult::Aborted(NearError::NetworkError(m))) => {
            assert_eq!(m, "connection refused");
        }
        _ => panic!("a failed read must abort with a network error"),
    }
    let state = start_submission(&req).unwrap();
    let (state, _) = on_event(
        &req,
        state,
        GatewayEvent::AccessKeyMissing("unknown access key".to_string()),
    );
    match state {
        SubmissionState::Finished(SubmissionResult::Aborted(NearError::AccessKeyNotFound(m))) => {
            assert_eq!(m, "unknown access key");
        }
        _ => panic!("an unknown access key is its own error kind"),
    }
}

#[test]
fn invalid_inputs_are_rejected_before_any_network_call() {
    let (key, _pk) = test_key();
    let mut req = sample_request(key.clone());
    req.signer_id = "Not-Valid".to_string();
    match start_submission(&req) {
        Err(NearError::InvalidInput(_)) => {}
        _ => panic!("an invalid signer id must be rejected up front"),
    }
    let mut req = sample_request(key.clone());
    req.receiver_id = "x".to_string();
    match start_submission(&req) {
        Err(NearError::InvalidInput(_)) => {}
        _ => panic!("an invalid contract id must be rejected up front"),
    }
    let req = sample_request("ed25519:notakey!!!".to_string());
    match start_submission(&req) {
        Err(NearError::InvalidKeyMaterial(_)) => {}
        _ => panic!("unusable key material must be rejected up front"),
    }
}

#[test]
fn nonce_at_the_numeric_ceiling_cannot_be_incremented() {
    let (key, _pk) = test_key();
    let req = sample_request(key);
    match build_and_sign(&req, u64::MAX, vec![9u8; 32]) {
        Err(NearError::EncodingError(_)) => {}
        _ => panic!("a nonce at the ceiling must be an encoding error"),
    }
}
