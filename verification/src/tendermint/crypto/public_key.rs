//! Nested message and enum types in `PublicKey`.

use vstd::prelude::*;

verus! {

/// The key bytes, by algorithm.
#[derive(Clone, Debug, PartialEq, Eq)]
pub enum Sum {
    /// An Ed25519 public key.
    Ed25519(Vec<u8>),
    /// A Secp256k1 public key.
    Secp256k1(Vec<u8>),
    /// An Sr25519 public key.
    Sr25519(Vec<u8>),
}

} // verus!
