//! Nested message and enum types in `Evidence`.

use vstd::prelude::*;

use crate::tendermint::types::{DuplicateVoteEvidence, LightClientAttackEvidence};

verus! {

/// Evidence, by kind.
#[derive(Clone, Debug, PartialEq, Eq)]
pub enum Sum {
    /// Two conflicting votes of one validator.
    DuplicateVoteEvidence(DuplicateVoteEvidence),
    /// An attempt to mislead a light client.
    LightClientAttackEvidence(LightClientAttackEvidence),
}

} // verus!
