//! Where the Tendermint protobuf definitions come from.

use vstd::prelude::*;

verus! {

/// Repository of the protobuf definitions.
pub const REPOSITORY: &'static str = "https://github.com/tendermint/tendermint";

/// Commit of the protobuf definitions.
pub const COMMITISH: &'static str = "v0.34.9";

} // verus!
