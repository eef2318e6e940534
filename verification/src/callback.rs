//! The asynchronous half of an action: handling the signing service's
//! answer and assembling the relay call.
//!
//! A successful answer carries a compressed curve point and a scalar as
//! hex text.  The point must decode to exactly 33 bytes (one parity byte
//! and the 32-byte `r`), the scalar to exactly 32 bytes; anything else
//! abandons the action.  No value debited before the suspension is
//! refunded here.

use vstd::prelude::*;

use crate::b64::{base64_encode, base64_of};
use crate::contract::Contract;
use crate::errors::Error;
use crate::evm_tx::{signed_payload, EvmSignature};
use crate::execute::PendingSign;
use crate::hexcodec::{hex_bytes, hex_decode, hex_ok};
use vstd::string::{StringExecFns, StringSliceAdditionalSpecFns};
use vstd::utf8::encode_utf8;

verus! {

/// Resource budget of the relay call.
pub const RELAY_GAS: u64 = 210_000_000_000_000;

/// A compressed elliptic-curve point, as hex text.
pub struct SerializedPoint {
    pub affine_point: String,
}

/// An elliptic-curve scalar, as hex text.
pub struct SerializedScalar {
    pub scalar: String,
}

/// A successful answer of the threshold-signing service.
pub struct SignResult {
    pub big_r: SerializedPoint,
    pub s: SerializedScalar,
    pub recovery_id: u8,
}

/// The relay call the environment must issue: `method_name` on
/// `receiver_id` with `args`, carrying `deposit` and `gas`.
pub struct RelayCall {
    pub receiver_id: String,
    pub method_name: String,
    pub args: Vec<u8>,
    pub deposit: u128,
    pub gas: u64,
}

/// Whether a signing answer is structurally sound: the point is hex for
/// exactly 33 bytes and the scalar hex for exactly 32.
pub open spec fn sign_result_ok(s: SignResult) -> bool {
    &&& hex_ok(encode_utf8(s.big_r.affine_point@))
    &&& hex_bytes(encode_utf8(s.big_r.affine_point@)).len() == 33
    &&& hex_ok(encode_utf8(s.s.scalar@))
    &&& hex_bytes(encode_utf8(s.s.scalar@)).len() == 32
}

/// The exact bytes of the arguments the relay call carries: the target
/// and the transport-encoded signed transaction, framed as a two-field
/// record.
pub open spec fn relay_args_bytes(target: Seq<char>, tx_b64: Seq<char>) -> Seq<u8> {
    "{\"target\":\"".spec_bytes() + encode_utf8(target) + "\",\"tx_bytes_b64\":\"".spec_bytes()
        + encode_utf8(tx_b64) + "\"}".spec_bytes()
}

impl Contract {
    /// Finishes an action once the signing service has answered.  On a
    /// structurally sound signature, rebuilds the signed transaction
    /// from the continuation state, encodes it for transport and returns
    /// the relay call to issue; any structural violation, or a service
    /// failure, abandons the action.
    ///
    /// The continuation's target must be a well-formed account
    /// identifier — every continuation the pipeline produces satisfies
    /// this — so the framed arguments cannot be broken or extended by
    /// the target's own characters.
    pub fn on_sign_evm_txn(&self, call_result: Result<SignResult, ()>, pending: PendingSign) -> (r:
        Result<RelayCall, Error>)
        requires
            crate::account::valid_account_id(pending.target_account_id@),
        ensures
            call_result matches Err(_) ==> r matches Err(e) && e == Error::SigningFailed,
            call_result matches Ok(s) ==> {
                &&& (r matches Ok(_) <==> sign_result_ok(s))
                &&& (r matches Err(e) ==> e == Error::MalformedSignature)
                &&& (r matches Ok(c) ==> {
                    let point = hex_bytes(encode_utf8(s.big_r.affine_point@));
                    let scalar = hex_bytes(encode_utf8(s.s.scalar@));
                    let signed = signed_payload(
                        pending.evm_transaction,
                        s.recovery_id as u64,
                        point.skip(1),
                        scalar,
                    );
                    &&& c.receiver_id@ == pending.wallet_account_id@
                    &&& c.method_name@ == "rlp_execute"@
                    &&& c.args@ == relay_args_bytes(pending.target_account_id@, base64_of(signed))
                    &&& c.deposit == pending.deposit
                    &&& c.gas == RELAY_GAS
                })
            },
    {
        let signature = match call_result {
            Ok(s) => s,
            Err(_) => {
                return Err(Error::SigningFailed);
            },
        };
        let point = match hex_decode(signature.big_r.affine_point.as_str().as_bytes()) {
            Some(p) => p,
            None => {
                return Err(Error::MalformedSignature);
            },
        };
        if point.len() != 33 {
            return Err(Error::MalformedSignature);
        }
        let mut r_bytes: Vec<u8> = Vec::new();
        let mut i: usize = 1;
        while i < 33
            invariant
                1 <= i <= 33,
                point@.len() == 33,
                r_bytes@ == point@.subrange(1, i as int),
            decreases 33 - i,
        {
            r_bytes.push(point[i]);
            i = i + 1;
            proof {
                assert(point@.subrange(1, i - 1).push(point@[i - 1]) =~= point@.subrange(
                    1,
                    i as int,
                ));
            }
        }
        proof {
            assert(r_bytes@ =~= point@.skip(1));
        }
        let s_bytes = match hex_decode(signature.s.scalar.as_str().as_bytes()) {
            Some(p) => p,
            None => {
                return Err(Error::MalformedSignature);
            },
        };
        if s_bytes.len() != 32 {
            return Err(Error::MalformedSignature);
        }
        let omni_signature = EvmSignature {
            v: signature.recovery_id as u64,
            r: r_bytes,
            s: s_bytes,
        };
        let signed_tx_bytes = pending.evm_transaction.build_with_signature(&omni_signature);
        let tx_bytes_b64 = base64_encode(signed_tx_bytes.as_slice());
        let mut args: Vec<u8> = Vec::new();
        crate::bytes::push_all(&mut args, "{\"target\":\"".as_bytes());
        crate::bytes::push_all(&mut args, pending.target_account_id.as_str().as_bytes());
        crate::bytes::push_all(&mut args, "\",\"tx_bytes_b64\":\"".as_bytes());
        crate::bytes::push_all(&mut args, tx_bytes_b64.as_str().as_bytes());
        crate::bytes::push_all(&mut args, "\"}".as_bytes());
        proof {
            assert(args@ =~= relay_args_bytes(
                pending.target_account_id@,
                base64_of(signed_tx_bytes@),
            ));
        }
        Ok(
            RelayCall {
                receiver_id: pending.wallet_account_id,
                method_name: rlp_execute_name(),
                args,
                deposit: pending.deposit,
                gas: RELAY_GAS,
            },
        )
    }
}

/// The relay entry point's name.
fn rlp_execute_name() -> (r: String)
    ensures
        r@ == "rlp_execute"@,
{
    String::from_str("rlp_execute")
}

} // verus!
