//! `tendermint.crypto` messages.

use vstd::prelude::*;

pub mod public_key;

verus! {

/// A Merkle proof of inclusion of a leaf.
#[derive(Clone, Debug, PartialEq, Eq, Default)]
pub struct Proof {
    /// Number of leaves.
    pub total: i64,
    /// Index of the leaf.
    pub index: i64,
    /// Hash of the leaf.
    pub leaf_hash: Vec<u8>,
    /// Hashes of the siblings on the path to the root.
    pub aunts: Vec<Vec<u8>>,
}

/// A value with its Merkle proof.
#[derive(Clone, Debug, PartialEq, Eq, Default)]
pub struct ValueOp {
    /// Encoded in ProofOp.Key.
    pub key: Vec<u8>,
    /// To encode in ProofOp.Data
    pub proof: Option<Proof>,
}

/// A proof operation that maps an input to an output under a key.
#[derive(Clone, Debug, PartialEq, Eq, Default)]
pub struct DominoOp {
    /// Key of the operation.
    pub key: String,
    /// Input of the operation.
    pub input: String,
    /// Output of the operation.
    pub output: String,
}

/// ProofOp defines an operation used for calculating Merkle root
/// The data could be arbitrary format, providing nessecary data
/// for example neighbouring node hash
#[derive(Clone, Debug, PartialEq, Eq, Default)]
pub struct ProofOp {
    /// Type of the operation.
    pub type_: String,
    /// Key of the operation.
    pub key: Vec<u8>,
    /// Data of the operation.
    pub data: Vec<u8>,
}

/// ProofOps is Merkle proof defined by the list of ProofOps
#[derive(Clone, Debug, PartialEq, Eq, Default)]
pub struct ProofOps {
    /// The operations, in order.
    pub ops: Vec<ProofOp>,
}

/// PublicKey defines the keys available for use with Tendermint Validators
#[derive(Clone, Debug, PartialEq, Eq, Default)]
pub struct PublicKey {
    /// The key, by algorithm.
    pub sum: Option<public_key::Sum>,
}

} // verus!
