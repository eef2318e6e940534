//! Error taxonomy of the relay.
//!
//! Every failure is fatal to the action that raised it: the library has no
//! in-pipeline retry, and callers propagate these values outward.

use vstd::prelude::*;

verus! {

/// Why an operation refused to proceed.
#[derive(Clone, Copy, Debug, PartialEq, Eq, Structural)]
pub enum Error {
    /// The caller is not the oracle account where only the oracle may act.
    Unauthorized,
    /// A path or session key is already registered.
    AlreadyExists,
    /// The application's prepaid balance cannot cover the requested debit.
    InsufficientBalance,
    /// A balance addition would exceed the largest representable amount.
    Overflow,
    /// The value attached to a registration cannot cover storage growth.
    InsufficientDeposit,
    /// Authentication of a signed request failed.
    InvalidSignature,
    /// A fixed-width decode had the wrong width, or an identifier is not
    /// a well-formed account identifier.
    InvalidEncoding,
    /// The external threshold-signing service reported failure.
    SigningFailed,
    /// The signing service answered, but the signature was structurally bad.
    MalformedSignature,
}

} // verus!
