//! `cometbft.services.block_results.v1beta1`.

pub mod block_results_service_server;
