//! CometBFT gRPC services of the v1.0 line.

pub mod block;
pub mod block_results;
pub mod pruning;
