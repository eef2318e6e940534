//! The destination-chain transaction and its deterministic serializations.
//!
//! A typed fee-market transaction serializes as a type byte followed by a
//! list of its fields; the unsigned form is what gets hashed for signing,
//! and the signed form appends the signature components to the same list.

use vstd::prelude::*;

use crate::bytes::push_all;
use crate::rlp::{append_header, append_str, append_uint, rlp_list, rlp_str, rlp_uint};

verus! {

/// Transaction type byte of a fee-market transaction.
pub const TX_TYPE: u8 = 0x02;

/// An unsigned destination-chain transaction.  The access list is always
/// empty, and `to` holds the 20-byte destination address.
#[derive(Debug)]
pub struct EvmTransaction {
    pub chain_id: u64,
    pub nonce: u64,
    pub to: Vec<u8>,
    pub value: u128,
    pub input: Vec<u8>,
    pub gas_limit: u128,
    pub max_fee_per_gas: u128,
    pub max_priority_fee_per_gas: u128,
}

/// A recoverable signature over a transaction digest: parity `v`, and the
/// two 32-byte components `r` and `s`.
#[derive(Debug)]
pub struct EvmSignature {
    pub v: u64,
    pub r: Vec<u8>,
    pub s: Vec<u8>,
}

/// Concatenated encodings of the transaction's fields, in wire order;
/// the trailing byte is the empty access list.
pub open spec fn tx_fields_payload(tx: EvmTransaction) -> Seq<u8> {
    rlp_uint(tx.chain_id as nat) + rlp_uint(tx.nonce as nat) + rlp_uint(
        tx.max_priority_fee_per_gas as nat,
    ) + rlp_uint(tx.max_fee_per_gas as nat) + rlp_uint(tx.gas_limit as nat) + rlp_str(tx.to@)
        + rlp_uint(tx.value as nat) + rlp_str(tx.input@) + seq![0xc0u8]
}

/// The exact bytes that are hashed to obtain the digest to be signed.
pub open spec fn signing_payload(tx: EvmTransaction) -> Seq<u8> {
    seq![TX_TYPE] + rlp_list(tx_fields_payload(tx))
}

/// The exact bytes of the signed transaction handed to the relay, for a
/// signature with parity `v` and components `r` and `s`.
pub open spec fn signed_payload(tx: EvmTransaction, v: u64, r: Seq<u8>, s: Seq<u8>) -> Seq<u8> {
    seq![TX_TYPE] + rlp_list(tx_fields_payload(tx) + rlp_uint(v as nat) + rlp_str(r) + rlp_str(s))
}

/// Serializes the transaction's fields into `out`.
fn append_tx_fields(out: &mut Vec<u8>, tx: &EvmTransaction)
    ensures
        final(out)@ == old(out)@ + tx_fields_payload(*tx),
{
    append_uint(out, tx.chain_id as u128);
    append_uint(out, tx.nonce as u128);
    append_uint(out, tx.max_priority_fee_per_gas);
    append_uint(out, tx.max_fee_per_gas);
    append_uint(out, tx.gas_limit);
    append_str(out, tx.to.as_slice());
    append_uint(out, tx.value);
    append_str(out, tx.input.as_slice());
    out.push(0xc0);
    proof {
        assert(final(out)@ =~= old(out)@ + tx_fields_payload(*tx));
    }
}

impl EvmTransaction {
    /// Serializes the unsigned transaction into the exact byte sequence
    /// whose digest the signing service must sign.
    pub fn build_for_signing(&self) -> (r: Vec<u8>)
        ensures
            r@ == signing_payload(*self),
    {
        let mut payload: Vec<u8> = Vec::new();
        append_tx_fields(&mut payload, self);
        let mut out: Vec<u8> = Vec::new();
        out.push(TX_TYPE);
        append_header(&mut out, payload.len(), 0xc0);
        push_all(&mut out, payload.as_slice());
        proof {
            assert(out@ =~= signing_payload(*self));
        }
        out
    }

    /// Serializes the transaction together with its signature into the
    /// byte sequence the relay forwards to the destination chain.
    pub fn build_with_signature(&self, signature: &EvmSignature) -> (r: Vec<u8>)
        ensures
            r@ == signed_payload(*self, signature.v, signature.r@, signature.s@),
    {
        let mut payload: Vec<u8> = Vec::new();
        append_tx_fields(&mut payload, self);
        append_uint(&mut payload, signature.v as u128);
        append_str(&mut payload, signature.r.as_slice());
        append_str(&mut payload, signature.s.as_slice());
        let mut out: Vec<u8> = Vec::new();
        out.push(TX_TYPE);
        append_header(&mut out, payload.len(), 0xc0);
        push_all(&mut out, payload.as_slice());
        proof {
            assert(out@ =~= signed_payload(*self, signature.v, signature.r@, signature.s@));
        }
        out
    }
}

/// Assembles an unsigned transaction with the fixed fee parameters the
/// relay always uses.
pub fn build_evm_transaction(
    chain_id: u64,
    nonce: u64,
    gas_limit: u64,
    to_address: Vec<u8>,
    value_in_wei: u128,
    input_data: Vec<u8>,
) -> (r: EvmTransaction)
    ensures
        r.chain_id == chain_id,
        r.nonce == nonce,
        r.gas_limit == gas_limit as u128,
        r.to@ == to_address@,
        r.value == value_in_wei,
        r.input@ == input_data@,
        r.max_fee_per_gas == 1,
        r.max_priority_fee_per_gas == 1,
{
    EvmTransaction {
        chain_id,
        nonce,
        to: to_address,
        value: value_in_wei,
        input: input_data,
        gas_limit: gas_limit as u128,
        max_fee_per_gas: 1,
        max_priority_fee_per_gas: 1,
    }
}

} // verus!
