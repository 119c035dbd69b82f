//! `cometbft.services.pruning.v1beta1`.

pub mod pruning_service_server;
