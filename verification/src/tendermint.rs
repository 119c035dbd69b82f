//! Tendermint protobuf messages (v0.34).

pub mod abci;
pub mod consensus;
pub mod crypto;
pub mod evidence;
pub mod libs;
pub mod mempool;
pub mod meta;
pub mod p2p;
pub mod privval;
pub mod statesync;
pub mod types;
pub mod version;
pub mod rpc;
