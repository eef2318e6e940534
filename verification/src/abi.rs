//! Call-data encoding for the destination chain's contract ABI.
//!
//! The relay uses two fixed, versioned function signatures: a contract
//! call and a plain transfer.  Arguments are encoded head-and-tail: one
//! 32-byte word per parameter (an offset for the dynamic ones), followed
//! by each dynamic parameter as a length word and right-padded data.

use vstd::prelude::*;

use crate::bytes::{fixed_be, fixed_be_u128, push_all};
use crate::digest::{keccak256, keccak_of};
use vstd::string::StringSliceAdditionalSpecFns;

verus! {

/// `n` zero bytes.
pub open spec fn zero_bytes(n: nat) -> Seq<u8> {
    Seq::new(n, |i: int| 0u8)
}

/// A 32-byte big-endian word holding `n`.
pub open spec fn abi_word(n: nat) -> Seq<u8> {
    fixed_be(n, 32)
}

/// How many zero bytes extend `n` data bytes to a multiple of 32.
pub open spec fn abi_pad_len(n: nat) -> nat {
    (((32 - (n % 32)) % 32) as nat)
}

/// Data right-padded with zeroes to a multiple of 32 bytes.
pub open spec fn abi_padded(b: Seq<u8>) -> Seq<u8> {
    b + zero_bytes(abi_pad_len(b.len()))
}

/// Tail of one dynamic parameter: its length word, then its padded data.
pub open spec fn abi_dyn(b: Seq<u8>) -> Seq<u8> {
    abi_word(b.len()) + abi_padded(b)
}

/// Selector of the versioned contract-call entry point: the first four
/// digest bytes of its signature.
pub open spec fn function_call_selector() -> Seq<u8> {
    keccak_of("functionCall(string,string,bytes,uint64,uint32)".spec_bytes()).take(4)
}

/// Exact call data of a contract call: selector, three offset words, the
/// two scalar words, then the three dynamic tails in parameter order.
pub open spec fn function_call_data(
    contract: Seq<u8>,
    method: Seq<u8>,
    args: Seq<u8>,
    gas: u64,
    yocto: u32,
) -> Seq<u8> {
    function_call_selector() + abi_word(160) + abi_word(160 + abi_dyn(contract).len()) + abi_word(
        160 + abi_dyn(contract).len() + abi_dyn(method).len(),
    ) + abi_word(gas as nat) + abi_word(yocto as nat) + abi_dyn(contract) + abi_dyn(method)
        + abi_dyn(args)
}

/// Selector of the versioned transfer entry point.
pub open spec fn transfer_selector() -> Seq<u8> {
    keccak_of("transfer(string,uint32)".spec_bytes()).take(4)
}

/// Exact call data of a transfer: selector, the receiver's offset word,
/// the value word, then the receiver's dynamic tail.
pub open spec fn transfer_data(receiver: Seq<u8>, yocto: u32) -> Seq<u8> {
    transfer_selector() + abi_word(64) + abi_word(yocto as nat) + abi_dyn(receiver)
}

/// Appends a 32-byte big-endian word holding `n`.
fn append_word(out: &mut Vec<u8>, n: u128)
    ensures
        final(out)@ == old(out)@ + abi_word(n as nat),
{
    let word = fixed_be_u128(n, 32);
    push_all(out, word.as_slice());
}

/// Appends the tail of one dynamic parameter.
fn append_dyn(out: &mut Vec<u8>, b: &[u8])
    requires
        b@.len() <= 0xffff_ffff,
    ensures
        final(out)@ == old(out)@ + abi_dyn(b@),
{
    append_word(out, b.len() as u128);
    push_all(out, b);
    let pad = (32 - b.len() % 32) % 32;
    let mut i: usize = 0;
    while i < pad
        invariant
            i <= pad,
            pad == abi_pad_len(b@.len()),
            out@ == old(out)@ + abi_word(b@.len()) + b@ + zero_bytes(i as nat),
        decreases pad - i,
    {
        out.push(0);
        i = i + 1;
        proof {
            assert(zero_bytes((i - 1) as nat).push(0u8) =~= zero_bytes(i as nat));
            assert(old(out)@ + abi_word(b@.len()) + b@ + zero_bytes((i - 1) as nat) + seq![0u8]
                =~= old(out)@ + abi_word(b@.len()) + b@ + zero_bytes(i as nat));
        }
    }
    proof {
        assert(old(out)@ + abi_word(b@.len()) + b@ + zero_bytes(abi_pad_len(b@.len())) =~= old(
            out,
        )@ + abi_dyn(b@));
    }
}

/// Appends the first four bytes of `digest`, the selector.
fn append_selector(out: &mut Vec<u8>, digest: &Vec<u8>)
    requires
        digest@.len() == 32,
    ensures
        final(out)@ == old(out)@ + digest@.take(4),
{
    let mut i: usize = 0;
    while i < 4
        invariant
            i <= 4,
            digest@.len() == 32,
            out@ == old(out)@ + digest@.take(i as int),
        decreases 4 - i,
    {
        out.push(digest[i]);
        i = i + 1;
        proof {
            assert(digest@.take(i - 1).push(digest@[i - 1]) =~= digest@.take(i as int));
            assert(old(out)@ + digest@.take(i - 1) + seq![digest@[i - 1]] =~= old(out)@
                + digest@.take(i as int));
        }
    }
}

/// Encodes the call data that asks the destination wallet to perform a
/// contract call with the given method, arguments, budget and value.
pub fn encode_function_call(
    contract_id: &str,
    method_name: &str,
    args: &[u8],
    gas: u64,
    yocto_near: u32,
) -> (r: Vec<u8>)
    requires
        contract_id.spec_bytes().len() <= 0xffff,
        method_name.spec_bytes().len() <= 0xffff,
        args@.len() <= 0xff_ffff,
    ensures
        r@ == function_call_data(
            contract_id.spec_bytes(),
            method_name.spec_bytes(),
            args@,
            gas,
            yocto_near,
        ),
{
    let digest = keccak256("functionCall(string,string,bytes,uint64,uint32)".as_bytes());
    let mut t1: Vec<u8> = Vec::new();
    append_dyn(&mut t1, contract_id.as_bytes());
    let mut t2: Vec<u8> = Vec::new();
    append_dyn(&mut t2, method_name.as_bytes());
    let mut t3: Vec<u8> = Vec::new();
    append_dyn(&mut t3, args);
    let mut out: Vec<u8> = Vec::new();
    append_selector(&mut out, &digest);
    append_word(&mut out, 160);
    append_word(&mut out, 160 + t1.len() as u128);
    append_word(&mut out, 160 + t1.len() as u128 + t2.len() as u128);
    append_word(&mut out, gas as u128);
    append_word(&mut out, yocto_near as u128);
    push_all(&mut out, t1.as_slice());
    push_all(&mut out, t2.as_slice());
    push_all(&mut out, t3.as_slice());
    proof {
        assert(out@ =~= function_call_data(
            contract_id.spec_bytes(),
            method_name.spec_bytes(),
            args@,
            gas,
            yocto_near,
        ));
    }
    out
}

/// Encodes the call data that asks the destination wallet to transfer
/// value to the given receiver.
pub fn encode_transfer(receiver_id: &str, yocto_near: u32) -> (r: Vec<u8>)
    requires
        receiver_id.spec_bytes().len() <= 0xffff,
    ensures
        r@ == transfer_data(receiver_id.spec_bytes(), yocto_near),
{
    let digest = keccak256("transfer(string,uint32)".as_bytes());
    let mut out: Vec<u8> = Vec::new();
    append_selector(&mut out, &digest);
    append_word(&mut out, 64);
    append_word(&mut out, yocto_near as u128);
    append_dyn(&mut out, receiver_id.as_bytes());
    proof {
        assert(out@ =~= transfer_data(receiver_id.spec_bytes(), yocto_near));
    }
    out
}

} // verus!
