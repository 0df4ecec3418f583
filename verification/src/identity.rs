//! Who acts and what is held: identities and asset kinds.

use vstd::prelude::*;

verus! {

/// A 256-bit public identity of a depositor, an administrator or a token mint.
///
/// The engine never interprets the bits: two identities are the same party
/// exactly when both halves agree.
#[derive(Clone, Copy, Debug, PartialEq, Eq, Hash, Structural)]
pub struct Identity {
    /// The most significant 128 bits.
    pub hi: u128,
    /// The least significant 128 bits.
    pub lo: u128,
}

impl Identity {
    /// The identity made of the two given halves.
    pub fn new(hi: u128, lo: u128) -> (id: Identity)
        ensures
            id == (Identity { hi, lo }),
    {
        Identity { hi, lo }
    }
}

/// The kind of value a balance is counted in.
#[derive(Clone, Copy, Debug, PartialEq, Eq, Hash, Structural)]
pub enum AssetId {
    /// The native currency of the host ledger.
    Native,
    /// A fungible token, named by the identity of its mint.
    Token(Identity),
}

} // verus!
