//! `tendermint.evidence` messages.

use vstd::prelude::*;

use crate::google::protobuf::Timestamp;
use crate::tendermint::types::{Evidence, Validator};

verus! {

/// A list of evidence.
#[derive(Clone, Debug, PartialEq, Eq, Default)]
pub struct List {
    /// The evidence.
    pub evidence: Vec<Evidence>,
}

/// Evidence with the state it was observed in.
#[derive(Clone, Debug, PartialEq, Eq, Default)]
pub struct Info {
    /// The evidence.
    pub evidence: Option<Evidence>,
    /// When it was observed.
    pub time: Option<Timestamp>,
    /// The validators at the time.
    pub validators: Vec<Validator>,
    /// Their total voting power.
    pub total_voting_power: i64,
}

} // verus!
