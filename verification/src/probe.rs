//! The RPC probe's own logic: its errors, its options, and the values it
//! sends to a node.

pub mod error;
pub mod opts;
pub mod plan;
pub mod quick;
pub mod request;
pub mod utils;
