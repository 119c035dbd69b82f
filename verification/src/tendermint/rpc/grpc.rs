//! `tendermint.rpc.grpc`: the gRPC broadcast service.

pub mod broadcast_api_server;
