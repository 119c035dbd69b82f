//! Nested message and enum types in `WALMessage`.

use vstd::prelude::*;

use crate::tendermint::consensus::{EndHeight, MsgInfo, TimeoutInfo};
use crate::tendermint::types::EventDataRoundState;

verus! {

/// A message of the write-ahead log, by kind.
#[derive(Clone, Debug, PartialEq, Eq)]
pub enum Sum {
    /// A round state.
    EventDataRoundState(EventDataRoundState),
    /// A message from a peer.
    MsgInfo(MsgInfo),
    /// A timeout.
    TimeoutInfo(TimeoutInfo),
    /// The end of a height.
    EndHeight(EndHeight),
}

} // verus!
