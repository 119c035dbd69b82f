//! `cometbft.services.block.v1beta1`.

pub mod block_service_server;
