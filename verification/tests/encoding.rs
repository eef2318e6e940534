use session_relay::abi::{encode_function_call, encode_transfer};
use session_relay::b64::base64_encode;
use session_relay::digest::{account_id_to_eth_address, keccak256};
use session_relay::evm_tx::{build_evm_transaction, EvmSignature, EvmTransaction};
use session_relay::hexcodec::hex_decode;
use session_relay::payload::vec_to_64_byte_array;

use ethabi::{Function, Param, ParamType, StateMutability, Token};
use ethereum_types::U256;
use omni_transaction::evm::types::Signature as OmniSignature;
use omni_transaction::evm::EVMTransaction as OmniEvmTransaction;
use sha3::{Digest, Keccak256};

#[test]
fn keccak_known_vector() {
    let digest = keccak256(b"");
    let expected = hex::decode("c5d2460186f7233c927e7db2dcc703c0e500b653ca82273b7bfad8045d85a470")
        .unwrap();
    assert_eq!(digest, expected);
}

#[test]
fn derived_address_is_hash_tail() {
    let addr = account_id_to_eth_address("bob");
    let full = Keccak256::digest(b"bob");
    assert_eq!(addr.len(), 20);
    assert_eq!(&addr[..], &full[12..32]);
}

#[test]
fn base64_known_vectors() {
    assert_eq!(base64_encode(b""), "");
    assert_eq!(base64_encode(b"hello"), "aGVsbG8=");
    assert_eq!(base64_encode(&[0u8, 1, 2, 3]), "AAECAw==");
}

#[test]
fn hex_decode_vectors() {
    assert_eq!(hex_decode(b""), Some(Vec::new()));
    assert_eq!(hex_decode(b"0aff"), Some(vec![0x0a, 0xff]));
    assert_eq!(hex_decode(b"0AFF"), Some(vec![0x0a, 0xff]));
    assert_eq!(hex_decode(b"abc"), None);
    assert_eq!(hex_decode(b"zz"), None);
}

#[test]
fn signature_width_check() {
    assert!(vec_to_64_byte_array(vec![0u8; 63]).is_none());
    assert!(vec_to_64_byte_array(vec![0u8; 65]).is_none());
    let arr = vec_to_64_byte_array((0u8..64).collect()).unwrap();
    assert_eq!(arr[0], 0);
    assert_eq!(arr[63], 63);
}

fn reference_function_call(
    contract_id: &str,
    method_name: &str,
    args: &[u8],
    gas: u64,
    yocto_near: u32,
) -> Vec<u8> {
    #[allow(deprecated)]
    let function = Function {
        name: "functionCall".to_string(),
        inputs: vec![
            Param { name: "receiver_id".to_string(), kind: ParamType::String, internal_type: None },
            Param { name: "method_name".to_string(), kind: ParamType::String, internal_type: None },
            Param { name: "args".to_string(), kind: ParamType::Bytes, internal_type: None },
            Param { name: "gas".to_string(), kind: ParamType::Uint(64), internal_type: None },
            Param { name: "yocto_near".to_string(), kind: ParamType::Uint(32), internal_type: None },
        ],
        outputs: vec![],
        constant: None,
        state_mutability: StateMutability::NonPayable,
    };
    function
        .encode_input(&[
            Token::String(contract_id.to_string()),
            Token::String(method_name.to_string()),
            Token::Bytes(args.to_vec()),
            Token::Uint(U256::from(gas)),
            Token::Uint(U256::from(yocto_near)),
        ])
        .unwrap()
}

fn reference_transfer(receiver_id: &str, yocto_near: u32) -> Vec<u8> {
    #[allow(deprecated)]
    let function = Function {
        name: "transfer".to_string(),
        inputs: vec![
            Param { name: "receiver_id".to_string(), kind: ParamType::String, internal_type: None },
            Param { name: "yocto_near".to_string(), kind: ParamType::Uint(32), internal_type: None },
        ],
        outputs: vec![],
        constant: None,
        state_mutability: StateMutability::NonPayable,
    };
    function
        .encode_input(&[
            Token::String(receiver_id.to_string()),
            Token::Uint(U256::from(yocto_near)),
        ])
        .unwrap()
}

#[test]
fn function_call_data_matches_reference_encoder() {
    let ours = encode_function_call(
        "counter.testnet",
        "increment",
        &[1, 2, 3, 4, 5],
        30_000_000_000_000,
        123_456,
    );
    let reference =
        reference_function_call("counter.testnet", "increment", &[1, 2, 3, 4, 5], 30_000_000_000_000, 123_456);
    assert_eq!(ours, reference);
}

#[test]
fn function_call_data_matches_reference_on_long_fields() {
    let args: Vec<u8> = (0u8..=255).collect();
    let long_method = "a_rather_long_method_name_that_spans_multiple_words";
    let ours = encode_function_call("some-app.near", long_method, &args, 1, 0);
    let reference = reference_function_call("some-app.near", long_method, &args, 1, 0);
    assert_eq!(ours, reference);
}

#[test]
fn transfer_data_matches_reference_encoder() {
    let ours = encode_transfer("bob.near", 999_999);
    let reference = reference_transfer("bob.near", 999_999);
    assert_eq!(ours, reference);
    let ours_zero = encode_transfer("", 0);
    let reference_zero = reference_transfer("", 0);
    assert_eq!(ours_zero, reference_zero);
}

fn to_omni(tx: &EvmTransaction) -> OmniEvmTransaction {
    let mut to = [0u8; 20];
    to.copy_from_slice(&tx.to);
    OmniEvmTransaction {
        chain_id: tx.chain_id,
        nonce: tx.nonce,
        to: Some(to),
        value: tx.value,
        input: tx.input.clone(),
        gas_limit: tx.gas_limit,
        max_fee_per_gas: tx.max_fee_per_gas,
        max_priority_fee_per_gas: tx.max_priority_fee_per_gas,
        access_list: vec![],
    }
}

#[test]
fn signing_bytes_match_reference_builder() {
    let address = account_id_to_eth_address("counter.testnet");
    let input = encode_function_call("counter.testnet", "increment", &[7, 7], 5_000_000_000_000, 0);
    let tx = build_evm_transaction(397, 42, 50_000, address, 123_456_789, input);
    let ours = tx.build_for_signing();
    let reference = to_omni(&tx).build_for_signing();
    assert_eq!(ours, reference);
}

#[test]
fn signing_bytes_match_reference_on_edge_values() {
    let tx = build_evm_transaction(1, 0, 0, account_id_to_eth_address(""), 0, vec![]);
    assert_eq!(tx.build_for_signing(), to_omni(&tx).build_for_signing());
    let big_input: Vec<u8> = (0u8..=255).cycle().take(1000).collect();
    let tx2 = build_evm_transaction(u64::MAX, u64::MAX, u64::MAX, vec![0xff; 20], u128::MAX, big_input);
    assert_eq!(tx2.build_for_signing(), to_omni(&tx2).build_for_signing());
}

#[test]
fn signed_bytes_match_reference_builder() {
    let address = account_id_to_eth_address("bob.near");
    let input = encode_transfer("bob.near", 1);
    let tx = build_evm_transaction(397, 3, 50_000, address, 0, input);
    let r: Vec<u8> = (1u8..=32).collect();
    let s: Vec<u8> = (101u8..=132).collect();
    let ours = tx.build_with_signature(&EvmSignature { v: 1, r: r.clone(), s: s.clone() });
    let reference = to_omni(&tx).build_with_signature(&OmniSignature { v: 1, r, s });
    assert_eq!(ours, reference);
}
