//! CometBFT protobuf messages of the v1.0 line.

pub mod abci;
pub mod services;
