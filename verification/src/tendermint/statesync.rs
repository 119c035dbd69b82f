//! `tendermint.statesync` messages.

use vstd::prelude::*;

pub mod message;

verus! {

/// A state sync message.
#[derive(Clone, Debug, PartialEq, Eq, Default)]
pub struct Message {
    /// The message, by kind.
    pub sum: Option<message::Sum>,
}

/// A request for snapshots.
#[derive(Clone, Copy, Debug, PartialEq, Eq, Structural, Default)]
pub struct SnapshotsRequest {}

/// A snapshot on offer.
#[derive(Clone, Debug, PartialEq, Eq, Default)]
pub struct SnapshotsResponse {
    /// Height of the snapshot.
    pub height: u64,
    /// Format of the snapshot.
    pub format: u32,
    /// Number of chunks.
    pub chunks: u32,
    /// Hash of the snapshot.
    pub hash: Vec<u8>,
    /// Metadata of the snapshot.
    pub metadata: Vec<u8>,
}

/// A request for a chunk of a snapshot.
#[derive(Clone, Copy, Debug, PartialEq, Eq, Structural, Default)]
pub struct ChunkRequest {
    /// Height of the snapshot.
    pub height: u64,
    /// Format of the snapshot.
    pub format: u32,
    /// Index of the chunk.
    pub index: u32,
}

/// A chunk of a snapshot.
#[derive(Clone, Debug, PartialEq, Eq, Default)]
pub struct ChunkResponse {
    /// Height of the snapshot.
    pub height: u64,
    /// Format of the snapshot.
    pub format: u32,
    /// Index of the chunk.
    pub index: u32,
    /// The chunk.
    pub chunk: Vec<u8>,
    /// Whether the chunk is missing.
    pub missing: bool,
}

} // verus!
