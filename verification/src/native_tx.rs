//! The same-chain transaction variant: no address derivation and no call
//! ABI, just the host chain's own binary transaction layout.
//!
//! The layout is length-prefixed and little-endian throughout: strings
//! carry a four-byte length, scalars are fixed-width, the signer key is
//! a curve tag followed by its 32 bytes, and the single function-call
//! action sits in a one-element action list.  The signing digest of such
//! a transaction is the SHA-256 of exactly these bytes.

use vstd::prelude::*;

use crate::bytes::{fixed_le, fixed_le_u128, push_all};
use crate::digest::{sha256, sha256_of};
use vstd::utf8::encode_utf8;

verus! {

/// Curve tag of an Ed25519 signer key.
pub const ED25519_KEY_TAG: u8 = 0;

/// Position of the function-call variant in the host chain's action
/// enumeration.
pub const FUNCTION_CALL_ACTION_TAG: u8 = 2;

/// A same-chain transaction with an explicit caller-supplied nonce, a
/// recent-block reference and a single function-call action.
pub struct NativeTransaction {
    /// Account on whose behalf the transaction is signed.
    pub signer_id: String,
    /// The signer's 32-byte Ed25519 public key.
    pub signer_public_key: Vec<u8>,
    /// Caller-supplied nonce ordering the signer's transactions.
    pub nonce: u64,
    /// Account the transaction is addressed to.
    pub receiver_id: String,
    /// 32-byte hash of a recent block the transaction is valid on top of.
    pub block_hash: Vec<u8>,
    /// Method called on the receiver.
    pub method_name: String,
    /// Argument bytes of the call.
    pub args: Vec<u8>,
    /// Resource budget of the call.
    pub gas: u64,
    /// Value attached to the call.
    pub deposit: u128,
}

/// A variable-length field: four little-endian length bytes, then the
/// data.
pub open spec fn lp_le_bytes(b: Seq<u8>) -> Seq<u8> {
    fixed_le(b.len(), 4) + b
}

/// The exact signing bytes of a native transaction: signer, tagged key,
/// nonce, receiver, block reference, then the one-element action list
/// holding the function call.
pub open spec fn native_signing_payload(tx: NativeTransaction) -> Seq<u8> {
    lp_le_bytes(encode_utf8(tx.signer_id@)) + seq![ED25519_KEY_TAG] + tx.signer_public_key@
        + fixed_le(tx.nonce as nat, 8) + lp_le_bytes(encode_utf8(tx.receiver_id@))
        + tx.block_hash@ + fixed_le(1, 4) + seq![FUNCTION_CALL_ACTION_TAG] + lp_le_bytes(
        encode_utf8(tx.method_name@),
    ) + lp_le_bytes(tx.args@) + fixed_le(tx.gas as nat, 8) + fixed_le(tx.deposit as nat, 16)
}

impl NativeTransaction {
    /// Within the widths and sizes the serializer accepts.
    pub open spec fn wf(self) -> bool {
        &&& self.signer_public_key@.len() == 32
        &&& self.block_hash@.len() == 32
        &&& encode_utf8(self.signer_id@).len() <= 0xffff
        &&& encode_utf8(self.receiver_id@).len() <= 0xffff
        &&& encode_utf8(self.method_name@).len() <= 0xffff
        &&& self.args@.len() <= 0xff_ffff
    }

    /// Serializes the transaction into the exact byte sequence whose
    /// SHA-256 digest the signing service must sign.
    pub fn build_for_signing(&self) -> (r: Vec<u8>)
        requires
            self.wf(),
        ensures
            r@ == native_signing_payload(*self),
    {
        let mut out: Vec<u8> = Vec::new();
        append_lp_le(&mut out, self.signer_id.as_str().as_bytes());
        out.push(ED25519_KEY_TAG);
        push_all(&mut out, self.signer_public_key.as_slice());
        let nonce_bytes = fixed_le_u128(self.nonce as u128, 8);
        push_all(&mut out, nonce_bytes.as_slice());
        append_lp_le(&mut out, self.receiver_id.as_str().as_bytes());
        push_all(&mut out, self.block_hash.as_slice());
        let count_bytes = fixed_le_u128(1, 4);
        push_all(&mut out, count_bytes.as_slice());
        out.push(FUNCTION_CALL_ACTION_TAG);
        append_lp_le(&mut out, self.method_name.as_str().as_bytes());
        append_lp_le(&mut out, self.args.as_slice());
        let gas_bytes = fixed_le_u128(self.gas as u128, 8);
        push_all(&mut out, gas_bytes.as_slice());
        let deposit_bytes = fixed_le_u128(self.deposit, 16);
        push_all(&mut out, deposit_bytes.as_slice());
        proof {
            assert(out@ =~= native_signing_payload(*self));
        }
        out
    }

    /// The transaction's signing digest: 32 bytes over the exact signing
    /// payload.
    pub fn signing_digest(&self) -> (r: Vec<u8>)
        requires
            self.wf(),
        ensures
            r@ == sha256_of(native_signing_payload(*self)),
            r@.len() == 32,
    {
        let bytes = self.build_for_signing();
        sha256(bytes.as_slice())
    }
}

/// Appends a length-prefixed field.
fn append_lp_le(out: &mut Vec<u8>, b: &[u8])
    requires
        b@.len() <= 0xffff_ffff,
    ensures
        final(out)@ == old(out)@ + lp_le_bytes(b@),
{
    let len_bytes = fixed_le_u128(b.len() as u128, 4);
    push_all(out, len_bytes.as_slice());
    push_all(out, b);
    proof {
        assert(old(out)@ + fixed_le(b@.len(), 4) + b@ =~= old(out)@ + lp_le_bytes(b@));
    }
}

} // verus!
