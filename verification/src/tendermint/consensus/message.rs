//! Nested message and enum types in `Message`.

use vstd::prelude::*;

use crate::tendermint::consensus::{
    BlockPart, HasVote, NewRoundStep, NewValidBlock, Proposal, ProposalPol, Vote, VoteSetBits,
    VoteSetMaj23,
};

verus! {

/// A consensus message, by kind.
#[derive(Clone, Debug, PartialEq, Eq)]
pub enum Sum {
    /// A new round step.
    NewRoundStep(NewRoundStep),
    /// A valid block was seen.
    NewValidBlock(NewValidBlock),
    /// A proposal.
    Proposal(Proposal),
    /// A proof-of-lock.
    ProposalPol(ProposalPol),
    /// A block part.
    BlockPart(BlockPart),
    /// A vote.
    Vote(Vote),
    /// A vote was received.
    HasVote(HasVote),
    /// A block has +2/3 votes.
    VoteSetMaj23(VoteSetMaj23),
    /// The votes seen for a block.
    VoteSetBits(VoteSetBits),
}

} // verus!
