//! The 32-byte cryptographic digest and the address derivation built on it.

use vstd::prelude::*;

use sha3::{Digest, Keccak256};
use vstd::string::StringSliceAdditionalSpecFns;

verus! {

/// The Keccak-256 digest of a byte sequence; its value depends on the
/// input bytes alone.
pub uninterp spec fn keccak_of(input: Seq<u8>) -> Seq<u8>;

/// Relies on sha3's Keccak-256: a deterministic 32-byte digest of the
/// input bytes.
#[verifier::external_body]
pub fn keccak256(input: &[u8]) -> (r: Vec<u8>)
    ensures
        r@ == keccak_of(input@),
        r@.len() == 32,
{
    Keccak256::digest(input).to_vec()
}

/// The SHA-256 digest of a byte sequence; its value depends on the
/// input bytes alone.
pub uninterp spec fn sha256_of(input: Seq<u8>) -> Seq<u8>;

/// Relies on sha2's SHA-256: a deterministic 32-byte digest of the
/// input bytes.
#[verifier::external_body]
pub fn sha256(input: &[u8]) -> (r: Vec<u8>)
    ensures
        r@ == sha256_of(input@),
        r@.len() == 32,
{
    sha2::Sha256::digest(input).to_vec()
}

/// The 20-byte destination-chain address derived from an account
/// identifier: the last 20 bytes of the identifier's digest.
pub open spec fn derived_address_of(account: Seq<u8>) -> Seq<u8> {
    keccak_of(account).skip(12)
}

/// Derives the destination-chain address of an account identifier by
/// hashing it and keeping the trailing 20 bytes.
pub fn account_id_to_eth_address(account_id: &str) -> (r: Vec<u8>)
    ensures
        r@ == derived_address_of(account_id.spec_bytes()),
        r@.len() == 20,
{
    let hash = keccak256(account_id.as_bytes());
    let mut out: Vec<u8> = Vec::new();
    let mut i: usize = 12;
    while i < 32
        invariant
            12 <= i <= 32,
            hash@.len() == 32,
            hash@ == keccak_of(account_id.spec_bytes()),
            out@ == hash@.subrange(12, i as int),
        decreases 32 - i,
    {
        out.push(hash[i]);
        i = i + 1;
        proof {
            assert(hash@.subrange(12, i - 1).push(hash@[i - 1]) =~= hash@.subrange(12, i as int));
        }
    }
    proof {
        assert(hash@.subrange(12, 32) =~= keccak_of(account_id.spec_bytes()).skip(12));
    }
    out
}

} // verus!
