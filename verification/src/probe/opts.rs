//! Options relating to probe execution.

use vstd::prelude::*;

verus! {

/// Options of a probe run.
#[derive(Clone, Debug, PartialEq, Eq)]
pub struct GeneralOptions {
    /// The address of the Tendermint node's WebSocket-based RPC endpoint.
    pub addr: String,
    /// The output path in which to store the received responses.
    pub output: String,
    /// Save responses within their original JSON-RPC wrappers.
    pub save_wrapper: bool,
    /// Increase output logging verbosity.
    pub verbose: bool,
}

} // verus!
