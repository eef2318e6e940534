//! Byte-sequence building blocks shared by the encoders.
//!
//! Big-endian integer encodings come in two shapes: minimal (no leading
//! zero bytes, empty for zero) and fixed-width (zero-padded on the left).

use vstd::prelude::*;

verus! {

/// Minimal big-endian bytes of `n`: empty for zero, no leading zero byte.
pub open spec fn min_be(n: nat) -> Seq<u8>
    decreases n,
{
    if n == 0 {
        Seq::empty()
    } else {
        min_be(n / 256).push((n % 256) as u8)
    }
}

/// Fixed-width big-endian bytes of `n`, `k` bytes long, left-padded with
/// zeroes; only the low `k` bytes of `n` are represented.
pub open spec fn fixed_be(n: nat, k: nat) -> Seq<u8>
    decreases k,
{
    if k == 0 {
        Seq::empty()
    } else {
        fixed_be(n / 256, (k - 1) as nat).push((n % 256) as u8)
    }
}

/// `256^k`, the count of values a `k`-byte big-endian encoding can hold.
pub open spec fn pow256(k: nat) -> nat
    decreases k,
{
    if k == 0 {
        1
    } else {
        256 * pow256((k - 1) as nat)
    }
}

/// `min_be(n)` fits in `k` bytes whenever `n < 256^k`; instantiated for
/// the widths the encoders use.
pub proof fn lemma_min_be_len(n: nat, k: nat)
    requires
        n < pow256(k),
    ensures
        min_be(n).len() <= k,
    decreases k,
{
    if k == 0 {
    } else if n == 0 {
    } else {
        assert(n / 256 < pow256((k - 1) as nat)) by (nonlinear_arith)
            requires
                n < 256 * pow256((k - 1) as nat),
        ;
        lemma_min_be_len(n / 256, (k - 1) as nat);
    }
}

/// `min_be` of a `u128` takes at most 16 bytes.
pub proof fn lemma_min_be_u128_len(n: u128)
    ensures
        min_be(n as nat).len() <= 16,
{
    assert(pow256(16) == 0x1_0000_0000_0000_0000_0000_0000_0000_0000) by {
        reveal_with_fuel(pow256, 17);
    }
    lemma_min_be_len(n as nat, 16);
}

/// Appends every byte of `src` to `dst`, in order.
pub fn push_all(dst: &mut Vec<u8>, src: &[u8])
    ensures
        final(dst)@ == old(dst)@ + src@,
{
    let mut i: usize = 0;
    while i < src.len()
        invariant
            i <= src@.len(),
            dst@ == old(dst)@ + src@.subrange(0, i as int),
        decreases src@.len() - i,
    {
        dst.push(src[i]);
        i = i + 1;
        proof {
            assert(old(dst)@ + src@.subrange(0, i - 1) + seq![src@[i - 1]] =~= old(dst)@
                + src@.subrange(0, i as int));
        }
    }
    proof {
        assert(src@.subrange(0, src@.len() as int) =~= src@);
    }
}

/// Minimal big-endian encoding of a `u128`.
pub fn min_be_u128(n: u128) -> (v: Vec<u8>)
    ensures
        v@ == min_be(n as nat),
        v@.len() <= 16,
    decreases n,
{
    proof {
        lemma_min_be_u128_len(n);
    }
    if n == 0 {
        Vec::new()
    } else {
        let mut v = min_be_u128(n / 256);
        v.push((n % 256) as u8);
        v
    }
}

/// Fixed-width big-endian encoding: the low `k` bytes of `n`.
pub fn fixed_be_u128(n: u128, k: usize) -> (v: Vec<u8>)
    ensures
        v@ == fixed_be(n as nat, k as nat),
        v@.len() == k,
    decreases k,
{
    if k == 0 {
        Vec::new()
    } else {
        let mut v = fixed_be_u128(n / 256, k - 1);
        v.push((n % 256) as u8);
        proof {
            assert(fixed_be(n as nat, k as nat).len() == k as nat) by {
                lemma_fixed_be_len(n as nat, k as nat);
            }
        }
        v
    }
}

/// Fixed-width little-endian bytes of `n`, `k` bytes long; only the low
/// `k` bytes of `n` are represented.
pub open spec fn fixed_le(n: nat, k: nat) -> Seq<u8>
    decreases k,
{
    if k == 0 {
        Seq::empty()
    } else {
        seq![(n % 256) as u8] + fixed_le(n / 256, (k - 1) as nat)
    }
}

/// Fixed-width little-endian encoding: the low `k` bytes of `n`.
pub fn fixed_le_u128(n: u128, k: usize) -> (v: Vec<u8>)
    ensures
        v@ == fixed_le(n as nat, k as nat),
        v@.len() == k,
    decreases k,
{
    if k == 0 {
        Vec::new()
    } else {
        let mut v: Vec<u8> = Vec::new();
        v.push((n % 256) as u8);
        let tail = fixed_le_u128(n / 256, k - 1);
        push_all(&mut v, tail.as_slice());
        proof {
            assert(v@ =~= fixed_le(n as nat, k as nat));
        }
        v
    }
}

/// `fixed_le(n, k)` is exactly `k` bytes long.
pub proof fn lemma_fixed_le_len(n: nat, k: nat)
    ensures
        fixed_le(n, k).len() == k,
    decreases k,
{
    if k > 0 {
        lemma_fixed_le_len(n / 256, (k - 1) as nat);
    }
}

/// `fixed_be(n, k)` is exactly `k` bytes long.
pub proof fn lemma_fixed_be_len(n: nat, k: nat)
    ensures
        fixed_be(n, k).len() == k,
    decreases k,
{
    if k > 0 {
        lemma_fixed_be_len(n / 256, (k - 1) as nat);
    }
}

/// A fresh byte vector holding the same bytes.
pub fn clone_bytes(v: &Vec<u8>) -> (r: Vec<u8>)
    ensures
        r@ == v@,
{
    let mut out: Vec<u8> = Vec::new();
    push_all(&mut out, v.as_slice());
    proof {
        assert(out@ =~= v@);
    }
    out
}

/// Fixed-width big-endian encodings are injective on values that fit
/// the width.
pub proof fn lemma_fixed_be_injective(n1: nat, n2: nat, k: nat)
    requires
        n1 < pow256(k),
        n2 < pow256(k),
        fixed_be(n1, k) == fixed_be(n2, k),
    ensures
        n1 == n2,
    decreases k,
{
    lemma_fixed_be_len(n1, k);
    lemma_fixed_be_len(n2, k);
    if k == 0 {
    } else {
        assert(fixed_be(n1, k).last() == (n1 % 256) as u8);
        assert(fixed_be(n2, k).last() == (n2 % 256) as u8);
        assert(n1 % 256 < 256 && n2 % 256 < 256) by (nonlinear_arith);
        assert(n1 % 256 == n2 % 256);
        assert(fixed_be(n1, k).drop_last() =~= fixed_be(n1 / 256, (k - 1) as nat));
        assert(fixed_be(n2, k).drop_last() =~= fixed_be(n2 / 256, (k - 1) as nat));
        assert(n1 / 256 < pow256((k - 1) as nat) && n2 / 256 < pow256((k - 1) as nat))
            by (nonlinear_arith)
            requires
                n1 < 256 * pow256((k - 1) as nat),
                n2 < 256 * pow256((k - 1) as nat),
        ;
        lemma_fixed_be_injective(n1 / 256, n2 / 256, (k - 1) as nat);
        assert(n1 == 256 * (n1 / 256) + n1 % 256) by (nonlinear_arith);
        assert(n2 == 256 * (n2 / 256) + n2 % 256) by (nonlinear_arith);
    }
}

/// Whether two byte slices hold the same bytes.
pub fn bytes_eq(a: &[u8], b: &[u8]) -> (r: bool)
    ensures
        r == (a@ == b@),
{
    if a.len() != b.len() {
        proof {
            assert(a@.len() != b@.len());
        }
        return false;
    }
    let mut i: usize = 0;
    while i < a.len()
        invariant
            i <= a@.len(),
            a@.len() == b@.len(),
            forall|j: int| 0 <= j < i ==> a@[j] == b@[j],
        decreases a@.len() - i,
    {
        if a[i] != b[i] {
            return false;
        }
        i = i + 1;
    }
    proof {
        assert(a@ =~= b@);
    }
    true
}

} // verus!
