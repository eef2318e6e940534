//! A delegated-signing relay library.
//!
//! An off-chain oracle registers scoped session keys on behalf of users;
//! holders of those keys submit signed action requests that the library
//! authenticates, meters against a per-application prepaid balance, and
//! compiles into a deterministic foreign-chain transaction together with
//! the digest an external threshold-signing service must sign.  On the
//! signing callback the library assembles the signed transaction and the
//! relay call that carries it to its destination.

use vstd::prelude::*;

pub mod abi;
pub mod account;
pub mod auth;
pub mod b64;
pub mod balances;
pub mod bytes;
pub mod callback;
pub mod contract;
pub mod digest;
pub mod errors;
pub mod evm_tx;
pub mod execute;
pub mod hexcodec;
pub mod models;
pub mod native_tx;
pub mod payload;
pub mod rlp;
pub mod sigcheck;
pub mod store;
pub mod units;

verus! {

} // verus!
