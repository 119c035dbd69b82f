//! `tendermint.libs` messages.

pub mod bits;
