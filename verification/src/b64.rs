//! Transport encoding of the signed transaction.

use vstd::prelude::*;

verus! {

/// The standard padded base64 text of a byte sequence, as a sequence of
/// characters; depends on the input bytes alone.
pub uninterp spec fn base64_of(input: Seq<u8>) -> Seq<char>;

/// Relies on base64's `encode`: standard alphabet with padding, so the
/// text is four characters for every started group of three bytes.
#[verifier::external_body]
pub fn base64_encode(input: &[u8]) -> (r: String)
    ensures
        r@ == base64_of(input@),
        r@.len() == 4 * ((input@.len() + 2) / 3),
        input@.len() == 0 ==> r@.len() == 0,
{
    base64::encode(input)
}

} // verus!
