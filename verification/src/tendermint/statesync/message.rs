//! Nested message and enum types in `Message`.

use vstd::prelude::*;

use crate::tendermint::statesync::{ChunkRequest, ChunkResponse, SnapshotsRequest, SnapshotsResponse};

verus! {

/// A state sync message, by kind.
#[derive(Clone, Debug, PartialEq, Eq)]
pub enum Sum {
    /// A request for snapshots.
    SnapshotsRequest(SnapshotsRequest),
    /// A snapshot on offer.
    SnapshotsResponse(SnapshotsResponse),
    /// A request for a chunk.
    ChunkRequest(ChunkRequest),
    /// A chunk.
    ChunkResponse(ChunkResponse),
}

} // verus!
