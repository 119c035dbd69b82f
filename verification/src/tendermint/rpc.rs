//! `tendermint.rpc` services.

pub mod grpc;
