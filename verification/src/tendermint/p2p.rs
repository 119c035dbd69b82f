//! `tendermint.p2p` messages.

use vstd::prelude::*;

use crate::google::protobuf::Timestamp;
use crate::tendermint::crypto::PublicKey;

pub mod packet;
pub mod pex_message;

verus! {

/// Protocol versions of a node.
#[derive(Clone, Copy, Debug, PartialEq, Eq, Structural, Default)]
pub struct ProtocolVersion {
    /// Peer-to-peer protocol version.
    pub p2p: u64,
    /// Block protocol version.
    pub block: u64,
    /// Application protocol version.
    pub app: u64,
}

/// What a node tells its peers about itself.
#[derive(Clone, Debug, PartialEq, Eq, Default)]
pub struct NodeInfo {
    /// Protocol versions.
    pub protocol_version: Option<ProtocolVersion>,
    /// Node identifier.
    pub node_id: String,
    /// Address the node listens on.
    pub listen_addr: String,
    /// Network (chain) name.
    pub network: String,
    /// Software version.
    pub version: String,
    /// Channels the node speaks.
    pub channels: Vec<u8>,
    /// Human-readable name.
    pub moniker: String,
    /// Further information.
    pub other: Option<NodeInfoOther>,
}

/// Further information about a node.
#[derive(Clone, Debug, PartialEq, Eq, Default)]
pub struct NodeInfoOther {
    /// Transaction indexing.
    pub tx_index: String,
    /// RPC address.
    pub rpc_address: String,
}

/// What a node knows about a peer.
#[derive(Clone, Debug, PartialEq, Eq, Default)]
pub struct PeerInfo {
    /// Peer identifier.
    pub id: String,
    /// Known addresses.
    pub address_info: Vec<PeerAddressInfo>,
    /// Last connection.
    pub last_connected: Option<Timestamp>,
}

/// What a node knows about one address of a peer.
#[derive(Clone, Debug, PartialEq, Eq, Default)]
pub struct PeerAddressInfo {
    /// The address.
    pub address: String,
    /// Last successful dial.
    pub last_dial_success: Option<Timestamp>,
    /// Last failed dial.
    pub last_dial_failure: Option<Timestamp>,
    /// Number of failed dials.
    pub dial_failures: u32,
}

/// A ping.
#[derive(Clone, Copy, Debug, PartialEq, Eq, Structural, Default)]
pub struct PacketPing {}

/// A pong.
#[derive(Clone, Copy, Debug, PartialEq, Eq, Structural, Default)]
pub struct PacketPong {}

/// A message on a channel.
#[derive(Clone, Debug, PartialEq, Eq, Default)]
pub struct PacketMsg {
    /// The channel.
    pub channel_id: i32,
    /// Whether this ends the message.
    pub eof: bool,
    /// The bytes.
    pub data: Vec<u8>,
}

/// A packet of the peer-to-peer protocol.
#[derive(Clone, Debug, PartialEq, Eq, Default)]
pub struct Packet {
    /// The packet, by kind.
    pub sum: Option<packet::Sum>,
}

/// The signature of the authenticated encryption handshake.
#[derive(Clone, Debug, PartialEq, Eq, Default)]
pub struct AuthSigMessage {
    /// Public key of the signer.
    pub pub_key: Option<PublicKey>,
    /// The signature.
    pub sig: Vec<u8>,
}

/// A peer address for peer exchange.
#[derive(Clone, Debug, PartialEq, Eq, Default)]
pub struct PexAddress {
    /// Peer identifier.
    pub id: String,
    /// IP address.
    pub ip: String,
    /// Port.
    pub port: u32,
}

/// A request for peer addresses.
#[derive(Clone, Copy, Debug, PartialEq, Eq, Structural, Default)]
pub struct PexRequest {}

/// Peer addresses in answer to a request.
#[derive(Clone, Debug, PartialEq, Eq, Default)]
pub struct PexResponse {
    /// The addresses.
    pub addresses: Vec<PexAddress>,
}

/// A peer address as a URL.
#[derive(Clone, Debug, PartialEq, Eq, Default)]
pub struct PexAddressV2 {
    /// The URL.
    pub url: String,
}

/// A request for peer URLs.
#[derive(Clone, Copy, Debug, PartialEq, Eq, Structural, Default)]
pub struct PexRequestV2 {}

/// Peer URLs in answer to a request.
#[derive(Clone, Debug, PartialEq, Eq, Default)]
pub struct PexResponseV2 {
    /// The addresses.
    pub addresses: Vec<PexAddressV2>,
}

/// A peer exchange message.
#[derive(Clone, Debug, PartialEq, Eq, Default)]
pub struct PexMessage {
    /// The message, by kind.
    pub sum: Option<pex_message::Sum>,
}

} // verus!
