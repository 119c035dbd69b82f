//! Protobuf-defined data types of Tendermint and CometBFT, with their
//! canonical JSON encodings and the conversions between wire and domain
//! types; the transaction types of the RPC; and the logic of the RPC probe.

pub mod arith;
pub mod cometbft;
pub mod decimal;
pub mod encoding;
pub mod error;
pub mod google;
pub mod grpc;
pub mod probe;
pub mod rpc_abci;
pub mod serializers;
pub mod tendermint;
pub mod text;
pub mod v0_34;
pub mod v1_0;

pub use error::Error;
