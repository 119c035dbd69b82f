//! CometBFT protobuf messages.

pub mod types;
