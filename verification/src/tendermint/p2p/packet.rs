//! Nested message and enum types in `Packet`.

use vstd::prelude::*;

use crate::tendermint::p2p::{PacketMsg, PacketPing, PacketPong};

verus! {

/// A packet, by kind.
#[derive(Clone, Debug, PartialEq, Eq)]
pub enum Sum {
    /// A ping.
    PacketPing(PacketPing),
    /// A pong.
    PacketPong(PacketPong),
    /// A message.
    PacketMsg(PacketMsg),
}

} // verus!
