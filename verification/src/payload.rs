//! Action requests and their canonical byte serialization.
//!
//! A request is signed over a deterministic, order-preserving encoding of
//! the action payload: a tag byte, each variable-length field behind a
//! four-byte big-endian length, and the scalars at fixed width, with the
//! nonce last.  Verification recomputes exactly these bytes.

use vstd::prelude::*;

use crate::bytes::{fixed_be, fixed_be_u128, push_all};
use crate::contract::Contract;
use crate::errors::Error;
use crate::sigcheck::{ed25519_valid, ed25519_verify};
use vstd::utf8::encode_utf8;

verus! {

broadcast use vstd::array::group_array_axioms;

/// An action a session-key holder may request.
pub enum NearAction {
    /// Call a method on a destination contract, with a resource budget
    /// and an attached value.
    FunctionCall {
        contract_id: String,
        method_name: String,
        args: Vec<u8>,
        gas: u64,
        deposit: u128,
    },
    /// Transfer value to a destination account.
    Transfer { receiver_id: String, amount: u128 },
}

/// A signed request: the action plus the caller-supplied nonce.
pub struct NearPayload {
    pub action: NearAction,
    pub nonce: u64,
}

/// A variable-length field: four length bytes, then the data.
pub open spec fn lp_bytes(b: Seq<u8>) -> Seq<u8> {
    fixed_be(b.len(), 4) + b
}

/// Canonical bytes of an action.
pub open spec fn canonical_action(a: NearAction) -> Seq<u8> {
    match a {
        NearAction::FunctionCall { contract_id, method_name, args, gas, deposit } => seq![1u8]
            + lp_bytes(encode_utf8(contract_id@)) + lp_bytes(encode_utf8(method_name@)) + lp_bytes(
            args@,
        ) + fixed_be(gas as nat, 8) + fixed_be(deposit as nat, 16),
        NearAction::Transfer { receiver_id, amount } => seq![2u8] + lp_bytes(
            encode_utf8(receiver_id@),
        ) + fixed_be(amount as nat, 16),
    }
}

/// Canonical bytes of a payload: its action, then its nonce.
pub open spec fn canonical_payload(p: NearPayload) -> Seq<u8> {
    canonical_action(p.action) + fixed_be(p.nonce as nat, 8)
}

impl NearAction {
    /// Within the sizes every encoder of the library accepts.
    pub open spec fn wf(self) -> bool {
        match self {
            NearAction::FunctionCall { contract_id, method_name, args, .. } => {
                &&& encode_utf8(contract_id@).len() <= 0xffff
                &&& encode_utf8(method_name@).len() <= 0xffff
                &&& args@.len() <= 0xff_ffff
            },
            NearAction::Transfer { receiver_id, .. } => encode_utf8(receiver_id@).len() <= 0xffff,
        }
    }
}

impl NearPayload {
    /// Within the sizes every encoder of the library accepts.
    pub open spec fn wf(self) -> bool {
        self.action.wf()
    }
}

/// Whether two payloads ask for the same thing: same action shape, same
/// fields, same nonce.
pub open spec fn payloads_alike(p1: NearPayload, p2: NearPayload) -> bool {
    &&& p1.nonce == p2.nonce
    &&& match (p1.action, p2.action) {
        (
            NearAction::FunctionCall {
                contract_id: c1,
                method_name: m1,
                args: a1,
                gas: g1,
                deposit: d1,
            },
            NearAction::FunctionCall {
                contract_id: c2,
                method_name: m2,
                args: a2,
                gas: g2,
                deposit: d2,
            },
        ) => c1@ == c2@ && m1@ == m2@ && a1@ == a2@ && g1 == g2 && d1 == d2,
        (
            NearAction::Transfer { receiver_id: rc1, amount: am1 },
            NearAction::Transfer { receiver_id: rc2, amount: am2 },
        ) => rc1@ == rc2@ && am1 == am2,
        _ => false,
    }
}

/// Equal concatenations with equally long heads have equal parts.
proof fn lemma_concat_split(p1: Seq<u8>, r1: Seq<u8>, p2: Seq<u8>, r2: Seq<u8>)
    requires
        p1 + r1 == p2 + r2,
        p1.len() == p2.len(),
    ensures
        p1 == p2,
        r1 == r2,
{
    assert(p1 =~= p2) by {
        assert forall|i: int| 0 <= i < p1.len() implies p1[i] == p2[i] by {
            assert((p1 + r1)[i] == p1[i]);
            assert((p2 + r2)[i] == p2[i]);
        }
    }
    assert((p1 + r1).len() == p1.len() + r1.len());
    assert((p2 + r2).len() == p2.len() + r2.len());
    assert(r1.len() == r2.len());
    assert(r1 =~= r2) by {
        assert forall|i: int| 0 <= i < r1.len() implies r1[i] == r2[i] by {
            assert((p1 + r1)[p1.len() + i] == r1[i]);
            assert((p2 + r2)[p2.len() + i] == r2[i]);
        }
    }
}

/// A length-prefixed field determines both itself and what follows it.
proof fn lemma_lp_split(a1: Seq<u8>, r1: Seq<u8>, a2: Seq<u8>, r2: Seq<u8>)
    requires
        a1.len() <= 0xffff_ffff,
        a2.len() <= 0xffff_ffff,
        lp_bytes(a1) + r1 == lp_bytes(a2) + r2,
    ensures
        a1 == a2,
        r1 == r2,
{
    crate::bytes::lemma_fixed_be_len(a1.len(), 4);
    crate::bytes::lemma_fixed_be_len(a2.len(), 4);
    assert(lp_bytes(a1) + r1 =~= fixed_be(a1.len(), 4) + (a1 + r1));
    assert(lp_bytes(a2) + r2 =~= fixed_be(a2.len(), 4) + (a2 + r2));
    lemma_concat_split(fixed_be(a1.len(), 4), a1 + r1, fixed_be(a2.len(), 4), a2 + r2);
    assert(crate::bytes::pow256(4) == 0x1_0000_0000) by {
        reveal_with_fuel(crate::bytes::pow256, 5);
    }
    crate::bytes::lemma_fixed_be_injective(a1.len(), a2.len(), 4);
    lemma_concat_split(a1, r1, a2, r2);
}

/// Equal same-width tails hold equal values.
proof fn lemma_fixed_split(n1: nat, n2: nat, k: nat, r1: Seq<u8>, r2: Seq<u8>)
    requires
        n1 < crate::bytes::pow256(k),
        n2 < crate::bytes::pow256(k),
        fixed_be(n1, k) + r1 == fixed_be(n2, k) + r2,
    ensures
        n1 == n2,
        r1 == r2,
{
    crate::bytes::lemma_fixed_be_len(n1, k);
    crate::bytes::lemma_fixed_be_len(n2, k);
    lemma_concat_split(fixed_be(n1, k), r1, fixed_be(n2, k), r2);
    crate::bytes::lemma_fixed_be_injective(n1, n2, k);
}

/// Two equal character sequences lie behind equal encodings.
proof fn lemma_utf8_injective(s1: Seq<char>, s2: Seq<char>)
    requires
        encode_utf8(s1) == encode_utf8(s2),
    ensures
        s1 == s2,
{
    vstd::utf8::encode_utf8_decode_utf8(s1);
    vstd::utf8::encode_utf8_decode_utf8(s2);
}

/// The contract-call case: equal canonical bytes force equal fields.
proof fn lemma_fc_case(
    c1: Seq<char>,
    m1: Seq<char>,
    a1: Seq<u8>,
    g1: u64,
    d1: u128,
    n1: u64,
    c2: Seq<char>,
    m2: Seq<char>,
    a2: Seq<u8>,
    g2: u64,
    d2: u128,
    n2: u64,
)
    requires
        encode_utf8(c1).len() <= 0xffff,
        encode_utf8(c2).len() <= 0xffff,
        encode_utf8(m1).len() <= 0xffff,
        encode_utf8(m2).len() <= 0xffff,
        a1.len() <= 0xff_ffff,
        a2.len() <= 0xff_ffff,
        seq![1u8] + (lp_bytes(encode_utf8(c1)) + (lp_bytes(encode_utf8(m1)) + (lp_bytes(a1) + (
        fixed_be(g1 as nat, 8) + (fixed_be(d1 as nat, 16) + fixed_be(n1 as nat, 8)))))) == seq![1u8]
            + (lp_bytes(encode_utf8(c2)) + (lp_bytes(encode_utf8(m2)) + (lp_bytes(a2) + (fixed_be(
            g2 as nat,
            8,
        ) + (fixed_be(d2 as nat, 16) + fixed_be(n2 as nat, 8)))))),
    ensures
        c1 == c2,
        m1 == m2,
        a1 == a2,
        g1 == g2,
        d1 == d2,
        n1 == n2,
{
    assert(crate::bytes::pow256(8) == 0x1_0000_0000_0000_0000) by {
        reveal_with_fuel(crate::bytes::pow256, 9);
    }
    assert(crate::bytes::pow256(16) == 0x1_0000_0000_0000_0000_0000_0000_0000_0000) by {
        reveal_with_fuel(crate::bytes::pow256, 17);
    }
    lemma_concat_split(
        seq![1u8],
        lp_bytes(encode_utf8(c1)) + (lp_bytes(encode_utf8(m1)) + (lp_bytes(a1) + (fixed_be(
            g1 as nat,
            8,
        ) + (fixed_be(d1 as nat, 16) + fixed_be(n1 as nat, 8))))),
        seq![1u8],
        lp_bytes(encode_utf8(c2)) + (lp_bytes(encode_utf8(m2)) + (lp_bytes(a2) + (fixed_be(
            g2 as nat,
            8,
        ) + (fixed_be(d2 as nat, 16) + fixed_be(n2 as nat, 8))))),
    );
    lemma_lp_split(
        encode_utf8(c1),
        lp_bytes(encode_utf8(m1)) + (lp_bytes(a1) + (fixed_be(g1 as nat, 8) + (fixed_be(
            d1 as nat,
            16,
        ) + fixed_be(n1 as nat, 8)))),
        encode_utf8(c2),
        lp_bytes(encode_utf8(m2)) + (lp_bytes(a2) + (fixed_be(g2 as nat, 8) + (fixed_be(
            d2 as nat,
            16,
        ) + fixed_be(n2 as nat, 8)))),
    );
    lemma_utf8_injective(c1, c2);
    lemma_lp_split(
        encode_utf8(m1),
        lp_bytes(a1) + (fixed_be(g1 as nat, 8) + (fixed_be(d1 as nat, 16) + fixed_be(
            n1 as nat,
            8,
        ))),
        encode_utf8(m2),
        lp_bytes(a2) + (fixed_be(g2 as nat, 8) + (fixed_be(d2 as nat, 16) + fixed_be(
            n2 as nat,
            8,
        ))),
    );
    lemma_utf8_injective(m1, m2);
    lemma_lp_split(
        a1,
        fixed_be(g1 as nat, 8) + (fixed_be(d1 as nat, 16) + fixed_be(n1 as nat, 8)),
        a2,
        fixed_be(g2 as nat, 8) + (fixed_be(d2 as nat, 16) + fixed_be(n2 as nat, 8)),
    );
    lemma_fixed_split(
        g1 as nat,
        g2 as nat,
        8,
        fixed_be(d1 as nat, 16) + fixed_be(n1 as nat, 8),
        fixed_be(d2 as nat, 16) + fixed_be(n2 as nat, 8),
    );
    lemma_fixed_split(d1 as nat, d2 as nat, 16, fixed_be(n1 as nat, 8), fixed_be(n2 as nat, 8));
    crate::bytes::lemma_fixed_be_injective(n1 as nat, n2 as nat, 8);
}

/// The transfer case: equal canonical bytes force equal fields.
proof fn lemma_transfer_case(
    rc1: Seq<char>,
    am1: u128,
    n1: u64,
    rc2: Seq<char>,
    am2: u128,
    n2: u64,
)
    requires
        encode_utf8(rc1).len() <= 0xffff,
        encode_utf8(rc2).len() <= 0xffff,
        seq![2u8] + (lp_bytes(encode_utf8(rc1)) + (fixed_be(am1 as nat, 16) + fixed_be(
            n1 as nat,
            8,
        ))) == seq![2u8] + (lp_bytes(encode_utf8(rc2)) + (fixed_be(am2 as nat, 16) + fixed_be(
            n2 as nat,
            8,
        ))),
    ensures
        rc1 == rc2,
        am1 == am2,
        n1 == n2,
{
    assert(crate::bytes::pow256(8) == 0x1_0000_0000_0000_0000) by {
        reveal_with_fuel(crate::bytes::pow256, 9);
    }
    assert(crate::bytes::pow256(16) == 0x1_0000_0000_0000_0000_0000_0000_0000_0000) by {
        reveal_with_fuel(crate::bytes::pow256, 17);
    }
    lemma_concat_split(
        seq![2u8],
        lp_bytes(encode_utf8(rc1)) + (fixed_be(am1 as nat, 16) + fixed_be(n1 as nat, 8)),
        seq![2u8],
        lp_bytes(encode_utf8(rc2)) + (fixed_be(am2 as nat, 16) + fixed_be(n2 as nat, 8)),
    );
    lemma_lp_split(
        encode_utf8(rc1),
        fixed_be(am1 as nat, 16) + fixed_be(n1 as nat, 8),
        encode_utf8(rc2),
        fixed_be(am2 as nat, 16) + fixed_be(n2 as nat, 8),
    );
    lemma_utf8_injective(rc1, rc2);
    lemma_fixed_split(am1 as nat, am2 as nat, 16, fixed_be(n1 as nat, 8), fixed_be(n2 as nat, 8));
    crate::bytes::lemma_fixed_be_injective(n1 as nat, n2 as nat, 8);
}

/// The canonical serialization is injective: two requests with the same
/// canonical bytes are the same request, so a signature over one
/// request's bytes never vouches for a different one.
pub proof fn lemma_canonical_payload_injective(p1: NearPayload, p2: NearPayload)
    requires
        p1.wf(),
        p2.wf(),
        canonical_payload(p1) == canonical_payload(p2),
    ensures
        payloads_alike(p1, p2),
{
    let s1 = canonical_payload(p1);
    let s2 = canonical_payload(p2);
    assert(s1[0] == canonical_action(p1.action)[0] && s2[0] == canonical_action(p2.action)[0]);
    match (p1.action, p2.action) {
        (
            NearAction::FunctionCall {
                contract_id: c1,
                method_name: m1,
                args: a1,
                gas: g1,
                deposit: d1,
            },
            NearAction::FunctionCall {
                contract_id: c2,
                method_name: m2,
                args: a2,
                gas: g2,
                deposit: d2,
            },
        ) => {
            assert(s1 =~= seq![1u8] + (lp_bytes(encode_utf8(c1@)) + (lp_bytes(encode_utf8(m1@)) + (
            lp_bytes(a1@) + (fixed_be(g1 as nat, 8) + (fixed_be(d1 as nat, 16) + fixed_be(
                p1.nonce as nat,
                8,
            )))))));
            assert(s2 =~= seq![1u8] + (lp_bytes(encode_utf8(c2@)) + (lp_bytes(encode_utf8(m2@)) + (
            lp_bytes(a2@) + (fixed_be(g2 as nat, 8) + (fixed_be(d2 as nat, 16) + fixed_be(
                p2.nonce as nat,
                8,
            )))))));
            lemma_fc_case(
                c1@,
                m1@,
                a1@,
                g1,
                d1,
                p1.nonce,
                c2@,
                m2@,
                a2@,
                g2,
                d2,
                p2.nonce,
            );
        },
        (
            NearAction::Transfer { receiver_id: rc1, amount: am1 },
            NearAction::Transfer { receiver_id: rc2, amount: am2 },
        ) => {
            assert(s1 =~= seq![2u8] + (lp_bytes(encode_utf8(rc1@)) + (fixed_be(am1 as nat, 16)
                + fixed_be(p1.nonce as nat, 8))));
            assert(s2 =~= seq![2u8] + (lp_bytes(encode_utf8(rc2@)) + (fixed_be(am2 as nat, 16)
                + fixed_be(p2.nonce as nat, 8))));
            lemma_transfer_case(rc1@, am1, p1.nonce, rc2@, am2, p2.nonce);
        },
        (NearAction::FunctionCall { .. }, NearAction::Transfer { .. }) => {
            assert(s1[0] == 1u8 && s2[0] == 2u8);
        },
        (NearAction::Transfer { .. }, NearAction::FunctionCall { .. }) => {
            assert(s1[0] == 2u8 && s2[0] == 1u8);
        },
    }
}

/// Appends a length-prefixed field.
fn append_lp(out: &mut Vec<u8>, b: &[u8])
    requires
        b@.len() <= 0xffff_ffff,
    ensures
        final(out)@ == old(out)@ + lp_bytes(b@),
{
    let len_bytes = fixed_be_u128(b.len() as u128, 4);
    push_all(out, len_bytes.as_slice());
    push_all(out, b);
    proof {
        assert(old(out)@ + fixed_be(b@.len(), 4) + b@ =~= old(out)@ + lp_bytes(b@));
    }
}

/// Serializes a payload into its canonical bytes.
pub fn canonical_payload_bytes(payload: &NearPayload) -> (r: Vec<u8>)
    requires
        payload.wf(),
    ensures
        r@ == canonical_payload(*payload),
{
    let mut out: Vec<u8> = Vec::new();
    match &payload.action {
        NearAction::FunctionCall { contract_id, method_name, args, gas, deposit } => {
            out.push(1u8);
            append_lp(&mut out, contract_id.as_str().as_bytes());
            append_lp(&mut out, method_name.as_str().as_bytes());
            append_lp(&mut out, args.as_slice());
            let gas_bytes = fixed_be_u128(*gas as u128, 8);
            push_all(&mut out, gas_bytes.as_slice());
            let deposit_bytes = fixed_be_u128(*deposit, 16);
            push_all(&mut out, deposit_bytes.as_slice());
        },
        NearAction::Transfer { receiver_id, amount } => {
            out.push(2u8);
            append_lp(&mut out, receiver_id.as_str().as_bytes());
            let amount_bytes = fixed_be_u128(*amount, 16);
            push_all(&mut out, amount_bytes.as_slice());
        },
    }
    let nonce_bytes = fixed_be_u128(payload.nonce as u128, 8);
    push_all(&mut out, nonce_bytes.as_slice());
    proof {
        assert(out@ =~= canonical_payload(*payload));
    }
    out
}

/// Checks that a byte vector is exactly a 64-byte signature and returns
/// it at fixed width.
pub fn vec_to_64_byte_array(vec: Vec<u8>) -> (r: Option<[u8; 64]>)
    ensures
        match r {
            Some(a) => vec@.len() == 64 && a@ == vec@,
            None => vec@.len() != 64,
        },
{
    if vec.len() != 64 {
        return None;
    }
    let mut arr: [u8; 64] = [0u8; 64];
    let mut i: usize = 0;
    while i < 64
        invariant
            i <= 64,
            vec@.len() == 64,
            arr@.len() == 64,
            forall|j: int| 0 <= j < i ==> arr@[j] == vec@[j],
        decreases 64 - i,
    {
        arr[i] = vec[i];
        i = i + 1;
    }
    proof {
        assert(arr@ =~= vec@);
    }
    Some(arr)
}

impl Contract {
    /// Authenticates a request: recomputes the canonical payload bytes,
    /// strips the curve-type tag from the presented session key, and
    /// verifies the detached signature.  This is the sole authorization
    /// gate: no action proceeds past a failure here.
    pub fn assert_valid_signature(
        &self,
        payload: &NearPayload,
        signature: &Vec<u8>,
        session_key: &Vec<u8>,
    ) -> (r: Result<(), Error>)
        requires
            payload.wf(),
        ensures
            r matches Ok(_) <==> session_key@.len() == 33 && signature@.len() == 64
                && ed25519_valid(session_key@.skip(1), canonical_payload(*payload), signature@),
            r matches Err(e) ==> e == Error::InvalidSignature,
    {
        let payload_bytes = canonical_payload_bytes(payload);
        if session_key.len() != 33 {
            return Err(Error::InvalidSignature);
        }
        let mut key_arr: [u8; 32] = [0u8; 32];
        let mut i: usize = 0;
        while i < 32
            invariant
                i <= 32,
                session_key@.len() == 33,
                key_arr@.len() == 32,
                forall|j: int| 0 <= j < i ==> key_arr@[j] == session_key@[j + 1],
            decreases 32 - i,
        {
            key_arr[i] = session_key[i + 1];
            i = i + 1;
        }
        proof {
            assert(key_arr@ =~= session_key@.skip(1));
        }
        let sig_arr = match vec_to_64_byte_array(crate::bytes::clone_bytes(signature)) {
            Some(a) => a,
            None => {
                return Err(Error::InvalidSignature);
            },
        };
        if ed25519_verify(&key_arr, payload_bytes.as_slice(), &sig_arr) {
            Ok(())
        } else {
            Err(Error::InvalidSignature)
        }
    }
}

} // verus!
