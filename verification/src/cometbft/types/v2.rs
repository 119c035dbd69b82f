//! `cometbft.types.v2` messages.

use vstd::prelude::*;

verus! {

/// BlockParams contains limits on the block size.
#[derive(Clone, Copy, Debug, PartialEq, Eq, Structural, Default)]
pub struct BlockParams {
    /// Max block size, in bytes.
    /// Note: must be greater than 0
    pub max_bytes: i64,
    /// Max gas per block.
    /// Note: must be greater or equal to -1
    pub max_gas: i64,
}

/// VersionParams contains the ABCI application version.
#[derive(Clone, Copy, Debug, PartialEq, Eq, Structural, Default)]
pub struct VersionParams {
    /// Was named app_version in v1
    pub app: u64,
}

} // verus!
