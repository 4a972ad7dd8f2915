//! Identities of holders, owners and assets.

use vstd::prelude::*;

verus! {

/// A 256-bit identity: an account's public key or a contract's hash, held as
/// two big-endian words. Two addresses are the same party exactly when all
/// three fields agree.
#[derive(Clone, Copy, Debug, PartialEq, Eq, Hash, Structural)]
pub struct Address {
    /// `true` for a contract, `false` for an account.
    pub contract: bool,
    /// The most significant sixteen bytes.
    pub hi: u128,
    /// The least significant sixteen bytes.
    pub lo: u128,
}

} // verus!
