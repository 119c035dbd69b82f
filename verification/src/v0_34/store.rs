//! `tendermint.store` messages.

use vstd::prelude::*;

verus! {

/// The range of heights that a block store holds.
#[derive(Clone, Copy, Debug, PartialEq, Eq, Structural, Default)]
pub struct BlockStoreState {
    /// Lowest height held.
    pub base: i64,
    /// Highest height held.
    pub height: i64,
}

} // verus!
