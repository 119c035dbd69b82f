//! `tendermint.version` messages.

use vstd::prelude::*;

verus! {

/// Consensus captures the consensus rules for processing a block in the blockchain,
/// including all blockchain data structures and the rules of the application's
/// state transition machine.
#[derive(Clone, Copy, Debug, PartialEq, Eq, Structural, Default)]
pub struct Consensus {
    /// Block protocol version.
    pub block: u64,
    /// Application protocol version.
    pub app: u64,
}

} // verus!
