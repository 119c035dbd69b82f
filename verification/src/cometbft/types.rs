//! `cometbft.types` messages.

pub mod v2;
