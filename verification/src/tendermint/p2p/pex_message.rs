//! Nested message and enum types in `PexMessage`.

use vstd::prelude::*;

use crate::tendermint::p2p::{PexRequest, PexRequestV2, PexResponse, PexResponseV2};

verus! {

/// A peer exchange message, by kind.
#[derive(Clone, Debug, PartialEq, Eq)]
pub enum Sum {
    /// A request for addresses.
    PexRequest(PexRequest),
    /// Addresses.
    PexResponse(PexResponse),
    /// A request for URLs.
    PexRequestV2(PexRequestV2),
    /// URLs.
    PexResponseV2(PexResponseV2),
}

} // verus!
