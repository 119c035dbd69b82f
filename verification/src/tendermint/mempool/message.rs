//! Nested message and enum types in `Message`.

use vstd::prelude::*;

use crate::tendermint::mempool::Txs;

verus! {

/// A mempool message, by kind.
#[derive(Clone, Debug, PartialEq, Eq)]
pub enum Sum {
    /// Transactions.
    Txs(Txs),
}

} // verus!
