//! `google.protobuf` well-known types with JSON support.

use vstd::prelude::*;

pub mod any;
pub mod duration;
pub mod timestamp;

pub use any::Any;
pub use duration::Duration;
pub use timestamp::Timestamp;


verus! {

/// The protobuf package of the well-known types.
pub const PACKAGE: &'static str = "google.protobuf";

} // verus!
