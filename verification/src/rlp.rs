//! Recursive-length-prefix encoding, the destination chain's wire format.
//!
//! Only the encoding direction is needed: byte strings, unsigned integers
//! (as minimal big-endian byte strings) and lists.

use vstd::prelude::*;

use crate::bytes::{lemma_min_be_len, min_be, min_be_u128, pow256, push_all};

verus! {

/// Header that announces a payload of `len` bytes; `offset` is `0x80` for
/// byte strings and `0xc0` for lists.
pub open spec fn rlp_header(len: nat, offset: u8) -> Seq<u8> {
    if len < 56 {
        seq![(offset + len) as u8]
    } else {
        seq![(offset + 55 + min_be(len).len()) as u8] + min_be(len)
    }
}

/// Encoding of a byte string: a single byte below `0x80` stands for
/// itself, anything else gets a length header.
pub open spec fn rlp_str(b: Seq<u8>) -> Seq<u8> {
    if b.len() == 1 && b[0] < 0x80 {
        b
    } else {
        rlp_header(b.len(), 0x80) + b
    }
}

/// Encoding of an unsigned integer: its minimal big-endian bytes as a
/// byte string (zero encodes as the empty string).
pub open spec fn rlp_uint(n: nat) -> Seq<u8> {
    rlp_str(min_be(n))
}

/// Encoding of a list whose items concatenate to `payload`.
pub open spec fn rlp_list(payload: Seq<u8>) -> Seq<u8> {
    rlp_header(payload.len(), 0xc0) + payload
}

/// Appends the header announcing `len` payload bytes.
pub fn append_header(out: &mut Vec<u8>, len: usize, offset: u8)
    requires
        offset == 0x80 || offset == 0xc0,
    ensures
        final(out)@ == old(out)@ + rlp_header(len as nat, offset),
{
    if len < 56 {
        out.push(offset + len as u8);
        proof {
            assert(old(out)@.push((offset + len) as u8) =~= old(out)@ + rlp_header(
                len as nat,
                offset,
            ));
        }
    } else {
        proof {
            assert(pow256(8) == 0x1_0000_0000_0000_0000) by {
                reveal_with_fuel(pow256, 9);
            }
            lemma_min_be_len(len as nat, 8);
        }
        let len_bytes = min_be_u128(len as u128);
        out.push(offset + 55 + len_bytes.len() as u8);
        push_all(out, len_bytes.as_slice());
        proof {
            assert(old(out)@.push((offset + 55 + min_be(len as nat).len()) as u8) + min_be(
                len as nat,
            ) =~= old(out)@ + rlp_header(len as nat, offset));
        }
    }
}

/// Appends the encoding of the byte string `b`.
pub fn append_str(out: &mut Vec<u8>, b: &[u8])
    ensures
        final(out)@ == old(out)@ + rlp_str(b@),
{
    if b.len() == 1 && b[0] < 0x80 {
        out.push(b[0]);
        proof {
            assert(old(out)@.push(b@[0]) =~= old(out)@ + b@);
        }
    } else {
        append_header(out, b.len(), 0x80);
        push_all(out, b);
        proof {
            assert(old(out)@ + rlp_header(b@.len(), 0x80) + b@ =~= old(out)@ + rlp_str(b@));
        }
    }
}

/// Appends the encoding of the unsigned integer `n`.
pub fn append_uint(out: &mut Vec<u8>, n: u128)
    ensures
        final(out)@ == old(out)@ + rlp_uint(n as nat),
{
    let digits = min_be_u128(n);
    append_str(out, digits.as_slice());
}

} // verus!
