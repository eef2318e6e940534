//! Detached-signature verification over the canonical request bytes.

use vstd::prelude::*;

use ed25519_dalek::{Signature, Verifier, VerifyingKey};

verus! {

/// Whether `signature` is a valid Ed25519 signature by the 32-byte
/// verification key `key` over `message`; depends on the three byte
/// sequences alone.
pub uninterp spec fn ed25519_valid(key: Seq<u8>, message: Seq<u8>, signature: Seq<u8>) -> bool;

/// Relies on ed25519-dalek's `VerifyingKey::verify`: deterministic
/// Ed25519 signature verification.  A byte sequence that is not a valid
/// curve point accepts no signature at all.
#[verifier::external_body]
pub fn ed25519_verify(key: &[u8; 32], message: &[u8], signature: &[u8; 64]) -> (r: bool)
    ensures
        r == ed25519_valid(key@, message@, signature@),
{
    match VerifyingKey::from_bytes(key) {
        Ok(vk) => vk.verify(message, &Signature::from_bytes(signature)).is_ok(),
        Err(_) => false,
    }
}

} // verus!
