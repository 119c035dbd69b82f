//! Well-known protobuf types.

pub mod protobuf;
