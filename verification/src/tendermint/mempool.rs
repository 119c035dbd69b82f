//! `tendermint.mempool` messages.

use vstd::prelude::*;

pub mod message;

verus! {

/// Transactions passed between mempools.
#[derive(Clone, Debug, PartialEq, Eq, Default)]
pub struct Txs {
    /// The transactions.
    pub txs: Vec<Vec<u8>>,
}

/// A mempool message.
#[derive(Clone, Debug, PartialEq, Eq, Default)]
pub struct Message {
    /// The message, by kind.
    pub sum: Option<message::Sum>,
}

} // verus!
