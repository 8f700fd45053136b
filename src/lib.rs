//! Deposit addresses for a cross-chain mint gateway.
//!
//! A deposit is named by a chain of hashes (selector, payload, gateway hash);
//! the gateway hash and a gateway public-key hash are committed into a locking
//! script whose pay-to-script-hash address is the deposit address.
use vstd::prelude::*;

pub mod address;
pub mod hashing;
pub mod script;

verus! {

} // verus!
