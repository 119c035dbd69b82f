//! `tendermint.consensus` messages.

use vstd::prelude::*;

use crate::google::protobuf::{Duration, Timestamp};
use crate::tendermint::libs::bits::BitArray;
use crate::tendermint::types::{BlockId, Part, PartSetHeader};

pub mod message;
pub mod wal_message;

verus! {

/// NewRoundStep is sent for every step taken in the ConsensusState.
/// For every height/round/step transition
#[derive(Clone, Copy, Debug, PartialEq, Eq, Structural, Default)]
pub struct NewRoundStep {
    /// Height.
    pub height: i64,
    /// Round.
    pub round: i32,
    /// Step.
    pub step: u32,
    /// Seconds since the round started.
    pub seconds_since_start_time: i64,
    /// Round of the last commit.
    pub last_commit_round: i32,
}

/// NewValidBlock is sent when a validator observes a valid block B in some round r,
/// i.e., there is a Proposal for block B and 2/3+ prevotes for the block B in the round r.
/// In case the block is also committed, then IsCommit flag is set to true.
#[derive(Clone, Debug, PartialEq, Eq, Default)]
pub struct NewValidBlock {
    /// Height.
    pub height: i64,
    /// Round.
    pub round: i32,
    /// Header of the block's part set.
    pub block_part_set_header: Option<PartSetHeader>,
    /// Parts of the block that the sender has.
    pub block_parts: Option<BitArray>,
    /// Whether the block is committed.
    pub is_commit: bool,
}

/// Proposal is sent when a new block is proposed.
#[derive(Clone, Debug, PartialEq, Eq, Default)]
pub struct Proposal {
    /// The proposal.
    pub proposal: Option<crate::tendermint::types::Proposal>,
}

/// ProposalPOL is sent when a previous proposal is re-proposed.
#[derive(Clone, Debug, PartialEq, Eq, Default)]
pub struct ProposalPol {
    /// Height.
    pub height: i64,
    /// Proof-of-lock round.
    pub proposal_pol_round: i32,
    /// Prevotes of the proof-of-lock round.
    pub proposal_pol: Option<BitArray>,
}

/// BlockPart is sent when gossipping a piece of the proposed block.
#[derive(Clone, Debug, PartialEq, Eq, Default)]
pub struct BlockPart {
    /// Height.
    pub height: i64,
    /// Round.
    pub round: i32,
    /// The part.
    pub part: Option<Part>,
}

/// Vote is sent when voting for a proposal (or lack thereof).
#[derive(Clone, Debug, PartialEq, Eq, Default)]
pub struct Vote {
    /// The vote.
    pub vote: Option<crate::tendermint::types::Vote>,
}

/// HasVote is sent to indicate that a particular vote has been received.
#[derive(Clone, Copy, Debug, PartialEq, Eq, Structural, Default)]
pub struct HasVote {
    /// Height.
    pub height: i64,
    /// Round.
    pub round: i32,
    /// The signed message type, as its number.
    pub type_: i32,
    /// Index of the validator.
    pub index: i32,
}

/// VoteSetMaj23 is sent to indicate that a given BlockID has seen +2/3 votes.
#[derive(Clone, Debug, PartialEq, Eq, Default)]
pub struct VoteSetMaj23 {
    /// Height.
    pub height: i64,
    /// Round.
    pub round: i32,
    /// The signed message type, as its number.
    pub type_: i32,
    /// The block.
    pub block_id: Option<BlockId>,
}

/// VoteSetBits is sent to communicate the bit-array of votes seen for the BlockID.
#[derive(Clone, Debug, PartialEq, Eq, Default)]
pub struct VoteSetBits {
    /// Height.
    pub height: i64,
    /// Round.
    pub round: i32,
    /// The signed message type, as its number.
    pub type_: i32,
    /// The block.
    pub block_id: Option<BlockId>,
    /// The votes seen.
    pub votes: Option<BitArray>,
}

/// A consensus message.
#[derive(Clone, Debug, PartialEq, Eq, Default)]
pub struct Message {
    /// The message, by kind.
    pub sum: Option<message::Sum>,
}

/// MsgInfo are msgs from the reactor which may update the state
#[derive(Clone, Debug, PartialEq, Eq, Default)]
pub struct MsgInfo {
    /// The message.
    pub msg: Option<Message>,
    /// The peer it came from.
    pub peer_id: String,
}

/// TimeoutInfo internally generated messages which may update the state
#[derive(Clone, Copy, Debug, PartialEq, Eq, Structural, Default)]
pub struct TimeoutInfo {
    /// Length of the timeout.
    pub duration: Option<Duration>,
    /// Height.
    pub height: i64,
    /// Round.
    pub round: i32,
    /// Step.
    pub step: u32,
}

/// EndHeight marks the end of the given height inside WAL.
#[derive(Clone, Copy, Debug, PartialEq, Eq, Structural, Default)]
pub struct EndHeight {
    /// The height.
    pub height: i64,
}

/// A message of the write-ahead log.
#[derive(Clone, Debug, PartialEq, Eq, Default)]
pub struct WalMessage {
    /// The message, by kind.
    pub sum: Option<wal_message::Sum>,
}

/// TimedWALMessage wraps WALMessage and adds Time for debugging purposes.
#[derive(Clone, Debug, PartialEq, Eq, Default)]
pub struct TimedWalMessage {
    /// When the message was written.
    pub time: Option<Timestamp>,
    /// The message.
    pub msg: Option<WalMessage>,
}

} // verus!
