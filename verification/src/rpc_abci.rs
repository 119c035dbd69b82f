//! Types of the Tendermint RPC that ABCI applications see.

pub mod transaction;
