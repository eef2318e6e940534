use session_relay::callback::{RelayCall, SerializedPoint, SerializedScalar, SignResult, RELAY_GAS};
use session_relay::contract::Contract;
use session_relay::errors::Error;
use session_relay::execute::{PendingSign, SignRequest, NEAR_EVM_CHAIN_ID};
use session_relay::payload::{canonical_payload_bytes, NearAction, NearPayload};

use ed25519_dalek::{Signer, SigningKey};
use omni_transaction::evm::types::Signature as OmniSignature;
use omni_transaction::evm::EVMTransaction as OmniEvmTransaction;
use sha3::{Digest, Keccak256};

fn oracle() -> String {
    "oracle.near".to_string()
}

fn fresh() -> Contract {
    Contract::new(oracle(), "mpc.near".to_string())
}

fn signing_key() -> SigningKey {
    SigningKey::from_bytes(&[7u8; 32])
}

/// The session key as presented on the wire: curve-type tag, then the
/// 32 verification-key bytes.
fn session_key_bytes(sk: &SigningKey) -> Vec<u8> {
    let mut out = vec![0u8];
    out.extend_from_slice(&sk.verifying_key().to_bytes());
    out
}

fn transfer_payload(receiver: &str, amount: u128, nonce: u64) -> NearPayload {
    NearPayload {
        action: NearAction::Transfer { receiver_id: receiver.to_string(), amount },
        nonce,
    }
}

fn sign_payload(sk: &SigningKey, payload: &NearPayload) -> Vec<u8> {
    let bytes = canonical_payload_bytes(payload);
    sk.sign(&bytes).to_bytes().to_vec()
}

fn registered_contract(sk: &SigningKey) -> Contract {
    let mut c = fresh();
    c.activate_account(&oracle(), vec![1, 2], "wallet.near".to_string(), "p1".to_string())
        .unwrap();
    c.add_session_key(&oracle(), session_key_bytes(sk), "p1".to_string(), "a".to_string())
        .unwrap();
    c
}

#[test]
fn valid_request_passes_authentication() {
    let sk = signing_key();
    let c = registered_contract(&sk);
    let payload = transfer_payload("bob", 1, 1);
    let sig = sign_payload(&sk, &payload);
    assert!(c.assert_valid_signature(&payload, &sig, &session_key_bytes(&sk)).is_ok());
}

#[test]
fn tampered_signature_is_rejected() {
    let sk = signing_key();
    let c = registered_contract(&sk);
    let payload = transfer_payload("bob", 1, 1);
    let sig = sign_payload(&sk, &payload);
    for i in 0..sig.len() {
        for bit in [0x01u8, 0x80u8] {
            let mut bad = sig.clone();
            bad[i] ^= bit;
            let r = c.assert_valid_signature(&payload, &bad, &session_key_bytes(&sk));
            assert_eq!(r, Err(Error::InvalidSignature), "flipped bit in byte {i} accepted");
        }
    }
}

#[test]
fn tampered_payload_is_rejected() {
    let sk = signing_key();
    let c = registered_contract(&sk);
    let payload = transfer_payload("bob", 1, 1);
    let sig = sign_payload(&sk, &payload);
    let tampered = [
        transfer_payload("bob", 2, 1),
        transfer_payload("bob", 1, 2),
        transfer_payload("boc", 1, 1),
        transfer_payload("bo", 1, 1),
    ];
    for bad in tampered {
        let r = c.assert_valid_signature(&bad, &sig, &session_key_bytes(&sk));
        assert_eq!(r, Err(Error::InvalidSignature));
    }
}

#[test]
fn malformed_key_lengths_are_rejected() {
    let sk = signing_key();
    let c = registered_contract(&sk);
    let payload = transfer_payload("bob", 1, 1);
    let sig = sign_payload(&sk, &payload);
    let untagged = sk.verifying_key().to_bytes().to_vec();
    assert_eq!(
        c.assert_valid_signature(&payload, &sig, &untagged),
        Err(Error::InvalidSignature)
    );
    let mut short_sig = sig.clone();
    short_sig.pop();
    assert_eq!(
        c.assert_valid_signature(&payload, &short_sig, &session_key_bytes(&sk)),
        Err(Error::InvalidSignature)
    );
}

#[test]
fn unknown_session_key_is_unauthorized() {
    let sk = signing_key();
    let mut c = registered_contract(&sk);
    let other = SigningKey::from_bytes(&[9u8; 32]);
    let payload = transfer_payload("bob", 1, 1);
    let sig = sign_payload(&other, &payload);
    let r = c.execute_near_action(0, 1, sig, payload, session_key_bytes(&other), "a".to_string());
    assert!(matches!(r, Err(Error::Unauthorized)));
}

#[test]
fn ill_formed_target_is_refused_before_compiling() {
    let sk = signing_key();
    let mut c = registered_contract(&sk);
    c.deposit(5, "a".to_string()).unwrap();
    let long_target = "a".repeat(65);
    let targets = ["bo\"b", "bo\\b", "BOB", "x", "{bad}", long_target.as_str()];
    for target in targets {
        let payload = transfer_payload(target, 1, 1);
        let sig = sign_payload(&sk, &payload);
        let r = c.execute_near_action(0, 1, sig, payload, session_key_bytes(&sk), "a".to_string());
        assert!(matches!(r, Err(Error::InvalidEncoding)), "target {target:?} accepted");
        assert_eq!(c.get_app_balance(&"a".to_string()), 5);
    }
}

#[test]
fn transfer_without_funds_fails() {
    let sk = signing_key();
    let mut c = registered_contract(&sk);
    let payload = transfer_payload("bob", 1, 1);
    let sig = sign_payload(&sk, &payload);
    let r = c.execute_near_action(0, 1, sig, payload, session_key_bytes(&sk), "a".to_string());
    assert!(matches!(r, Err(Error::InsufficientBalance)));
    assert_eq!(c.get_app_balance(&"a".to_string()), 0);
}

fn expected_transfer_tx(nonce: u64, amount: u128) -> OmniEvmTransaction {
    let to_hash = Keccak256::digest(b"bob");
    let mut to = [0u8; 20];
    to.copy_from_slice(&to_hash[12..32]);
    let input = session_relay::abi::encode_transfer("bob", (amount % 1_000_000) as u32);
    OmniEvmTransaction {
        chain_id: NEAR_EVM_CHAIN_ID,
        nonce,
        to: Some(to),
        value: amount / 1_000_000,
        input,
        gas_limit: 50_000,
        max_fee_per_gas: 1,
        max_priority_fee_per_gas: 1,
        access_list: vec![],
    }
}

fn run_transfer(c: &mut Contract, sk: &SigningKey) -> (SignRequest, PendingSign) {
    let payload = transfer_payload("bob", 1, 1);
    let sig = sign_payload(sk, &payload);
    c.execute_near_action(0, 1, sig, payload, session_key_bytes(sk), "a".to_string()).unwrap()
}

fn mock_sign_result() -> SignResult {
    let point: Vec<u8> = std::iter::once(2u8).chain(11u8..43).collect();
    let scalar: Vec<u8> = (61u8..93).collect();
    SignResult {
        big_r: SerializedPoint { affine_point: hex::encode(point) },
        s: SerializedScalar { scalar: hex::encode(scalar) },
        recovery_id: 1,
    }
}

#[test]
fn end_to_end_transfer_scenario() {
    let sk = signing_key();
    let mut c = registered_contract(&sk);
    c.deposit(5, "a".to_string()).unwrap();

    let (request, pending) = run_transfer(&mut c, &sk);

    // The debit happened before suspension.
    assert_eq!(c.get_app_balance(&"a".to_string()), 4);

    // The signing request carries a 32-byte digest of the exact bytes
    // the reference builder would sign, and the bundle's path.
    assert_eq!(request.payload_digest.len(), 32);
    let expected_tx = expected_transfer_tx(1, 1);
    let expected_digest = Keccak256::digest(&expected_tx.build_for_signing());
    assert_eq!(&request.payload_digest[..], &expected_digest[..]);
    assert_eq!(request.path, "p1");

    // The continuation carries everything the callback needs.
    assert_eq!(pending.wallet_account_id, "wallet.near");
    assert_eq!(pending.target_account_id, "bob");
    assert_eq!(pending.deposit, 1);

    // The usage record counted the action.
    let usage = c.get_key_usage(&session_key_bytes(&sk)).unwrap();
    assert_eq!(usage.usage_stats.total_interactions, 1);
    assert_eq!(usage.usage_stats.deposit_used, 1);

    // A well-formed mock signature yields the relay call.
    let result = mock_sign_result();
    let point = hex::decode(&result.big_r.affine_point).unwrap();
    let scalar = hex::decode(&result.s.scalar).unwrap();
    let relay: RelayCall = c.on_sign_evm_txn(Ok(result), pending).unwrap();
    assert_eq!(relay.receiver_id, "wallet.near");
    assert_eq!(relay.method_name, "rlp_execute");
    assert_eq!(relay.deposit, 1);
    assert_eq!(relay.gas, RELAY_GAS);

    let signed = expected_tx.build_with_signature(&OmniSignature {
        v: 1,
        r: point[1..].to_vec(),
        s: scalar,
    });
    let expected_args = format!(
        "{{\"target\":\"bob\",\"tx_bytes_b64\":\"{}\"}}",
        base64::encode(&signed)
    );
    assert_eq!(relay.args, expected_args.into_bytes());
}

#[test]
fn signing_service_failure_aborts_without_refund() {
    let sk = signing_key();
    let mut c = registered_contract(&sk);
    c.deposit(5, "a".to_string()).unwrap();
    let (_request, pending) = run_transfer(&mut c, &sk);
    let r = c.on_sign_evm_txn(Err(()), pending);
    assert!(matches!(r, Err(Error::SigningFailed)));
    // The earlier debit stays: no automatic refund.
    assert_eq!(c.get_app_balance(&"a".to_string()), 4);
}

#[test]
fn structurally_bad_signatures_are_malformed() {
    let sk = signing_key();
    let mut c = registered_contract(&sk);
    c.deposit(5, "a".to_string()).unwrap();

    // Point of the wrong width.
    let (_, pending) = run_transfer(&mut c, &sk);
    let mut bad = mock_sign_result();
    bad.big_r.affine_point = hex::encode([2u8; 32]);
    assert!(matches!(c.on_sign_evm_txn(Ok(bad), pending), Err(Error::MalformedSignature)));

    // Point that is not hex at all.
    let (_, pending) = run_transfer(&mut c, &sk);
    let mut bad = mock_sign_result();
    bad.big_r.affine_point = "zz".repeat(33);
    assert!(matches!(c.on_sign_evm_txn(Ok(bad), pending), Err(Error::MalformedSignature)));

    // Scalar of the wrong width.
    let (_, pending) = run_transfer(&mut c, &sk);
    let mut bad = mock_sign_result();
    bad.s.scalar = hex::encode([9u8; 31]);
    assert!(matches!(c.on_sign_evm_txn(Ok(bad), pending), Err(Error::MalformedSignature)));

    // Scalar with an odd number of digits.
    let (_, pending) = run_transfer(&mut c, &sk);
    let mut bad = mock_sign_result();
    bad.s.scalar.push('a');
    assert!(matches!(c.on_sign_evm_txn(Ok(bad), pending), Err(Error::MalformedSignature)));
}

#[test]
fn function_call_action_debits_and_compiles() {
    let sk = signing_key();
    let mut c = registered_contract(&sk);
    c.deposit(3_000_000, "a".to_string()).unwrap();
    let payload = NearPayload {
        action: NearAction::FunctionCall {
            contract_id: "counter.testnet".to_string(),
            method_name: "increment".to_string(),
            args: vec![1, 2, 3],
            gas: 30_000_000_000_000,
            deposit: 2_500_000,
        },
        nonce: 9,
    };
    let sig = sign_payload(&sk, &payload);
    let (request, pending) = c
        .execute_near_action(0, 1, sig, payload, session_key_bytes(&sk), "a".to_string())
        .unwrap();
    assert_eq!(c.get_app_balance(&"a".to_string()), 500_000);
    assert_eq!(request.payload_digest.len(), 32);
    assert_eq!(pending.target_account_id, "counter.testnet");
    assert_eq!(pending.deposit, 2_500_000);
    assert_eq!(pending.evm_transaction.value, 2);
    assert_eq!(pending.evm_transaction.gas_limit, 300_000);
    assert_eq!(pending.evm_transaction.nonce, 9);
    let expected_input = session_relay::abi::encode_function_call(
        "counter.testnet",
        "increment",
        &[1, 2, 3],
        30_000_000_000_000,
        500_000,
    );
    assert_eq!(pending.evm_transaction.input, expected_input);
    let usage = c.get_key_usage(&session_key_bytes(&sk)).unwrap();
    assert_eq!(usage.usage_stats.total_interactions, 1);
    assert_eq!(usage.usage_stats.deposit_used, 2_500_000);
    assert_eq!(usage.usage_stats.gas_used, 30_000_000_000_000);
    assert_eq!(usage.usage_stats.interactions_per_day.get(&1), Some(&1));
    assert_eq!(usage.usage_stats.methods_called.get(&"increment".to_string()), Some(&1));
    assert_eq!(usage.usage_stats.contracts_called.get(&"counter.testnet".to_string()), Some(&1));
}
