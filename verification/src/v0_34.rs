//! Tendermint protobuf messages of the v0.34 line that later lines changed.

pub mod abci;
pub mod store;
