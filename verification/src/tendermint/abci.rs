//! `tendermint.abci` enumerations, the same as those of the v0.34 line.

pub use crate::v0_34::abci::{
    response_apply_snapshot_chunk, response_offer_snapshot, CheckTxType, EvidenceType,
};
