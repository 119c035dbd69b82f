//! `tendermint.types` messages.

use vstd::prelude::*;

use crate::google::protobuf::{Duration, Timestamp};
use crate::tendermint::crypto::{Proof, PublicKey};
use crate::tendermint::version::Consensus;

pub mod evidence;

verus! {

/// A set of validators with the current proposer.
#[derive(Clone, Debug, PartialEq, Eq, Default)]
pub struct ValidatorSet {
    /// The validators.
    pub validators: Vec<Validator>,
    /// The proposer of the current round.
    pub proposer: Option<Validator>,
    /// Sum of the voting powers.
    pub total_voting_power: i64,
}

/// A validator with its key and voting power.
#[derive(Clone, Debug, PartialEq, Eq, Default)]
pub struct Validator {
    /// Address of the validator.
    pub address: Vec<u8>,
    /// Public key of the validator.
    pub pub_key: Option<PublicKey>,
    /// Voting power.
    pub voting_power: i64,
    /// Priority for becoming proposer.
    pub proposer_priority: i64,
}

/// A validator's key and voting power only.
#[derive(Clone, Debug, PartialEq, Eq, Default)]
pub struct SimpleValidator {
    /// Public key of the validator.
    pub pub_key: Option<PublicKey>,
    /// Voting power.
    pub voting_power: i64,
}

/// PartsetHeader
#[derive(Clone, Debug, PartialEq, Eq, Default)]
pub struct PartSetHeader {
    /// Number of parts.
    pub total: u32,
    /// Hash of the parts.
    pub hash: Vec<u8>,
}

/// One part of a block, with its proof.
#[derive(Clone, Debug, PartialEq, Eq, Default)]
pub struct Part {
    /// Index of the part.
    pub index: u32,
    /// Content of the part.
    pub bytes: Vec<u8>,
    /// Proof of the part against the part set's hash.
    pub proof: Option<Proof>,
}

/// BlockID
#[derive(Clone, Debug, PartialEq, Eq, Default)]
pub struct BlockId {
    /// Hash of the block.
    pub hash: Vec<u8>,
    /// Header of the block's part set.
    pub part_set_header: Option<PartSetHeader>,
}

/// Header defines the structure of a Tendermint block header.
#[derive(Clone, Debug, PartialEq, Eq, Default)]
pub struct Header {
    /// basic block info
    pub version: Option<Consensus>,
    /// Chain the block belongs to.
    pub chain_id: String,
    /// Height of the block.
    pub height: i64,
    /// Time of the block.
    pub time: Option<Timestamp>,
    /// prev block info
    pub last_block_id: Option<BlockId>,
    /// commit from validators from the last block
    pub last_commit_hash: Vec<u8>,
    /// transactions
    pub data_hash: Vec<u8>,
    /// validators for the current block
    pub validators_hash: Vec<u8>,
    /// validators for the next block
    pub next_validators_hash: Vec<u8>,
    /// consensus params for current block
    pub consensus_hash: Vec<u8>,
    /// state after txs from the previous block
    pub app_hash: Vec<u8>,
    /// root hash of all results from the txs from the previous block
    pub last_results_hash: Vec<u8>,
    /// evidence included in the block
    pub evidence_hash: Vec<u8>,
    /// original proposer of the block
    pub proposer_address: Vec<u8>,
}

/// Data contains the set of transactions included in the block
#[derive(Clone, Debug, PartialEq, Eq, Default)]
pub struct Data {
    /// Txs that will be applied by state @ block.Height+1.
    /// NOTE: not all txs here are valid.  We're just agreeing on the order first.
    /// This means that block.AppHash does not include these txs.
    pub txs: Vec<Vec<u8>>,
}

/// Vote represents a prevote, precommit, or commit vote from validators for
/// consensus.
#[derive(Clone, Debug, PartialEq, Eq, Default)]
pub struct Vote {
    /// The [`SignedMsgType`] of the vote, as its number.
    pub type_: i32,
    /// Height of the vote.
    pub height: i64,
    /// Round of the vote.
    pub round: i32,
    /// zero if vote is nil.
    pub block_id: Option<BlockId>,
    /// Time of the vote.
    pub timestamp: Option<Timestamp>,
    /// Address of the voting validator.
    pub validator_address: Vec<u8>,
    /// Index of the voting validator.
    pub validator_index: i32,
    /// Signature of the vote.
    pub signature: Vec<u8>,
}

/// Commit contains the evidence that a block was committed by a set of validators.
#[derive(Clone, Debug, PartialEq, Eq, Default)]
pub struct Commit {
    /// Height of the committed block.
    pub height: i64,
    /// Round of the commit.
    pub round: i32,
    /// The committed block.
    pub block_id: Option<BlockId>,
    /// Signatures of the validators.
    pub signatures: Vec<CommitSig>,
}

/// CommitSig is a part of the Vote included in a Commit.
#[derive(Clone, Debug, PartialEq, Eq, Default)]
pub struct CommitSig {
    /// The [`BlockIdFlag`] of the signature, as its number.
    pub block_id_flag: i32,
    /// Address of the signing validator.
    pub validator_address: Vec<u8>,
    /// Time of the signature.
    pub timestamp: Option<Timestamp>,
    /// The signature.
    pub signature: Vec<u8>,
}

/// A proposal of a block.
#[derive(Clone, Debug, PartialEq, Eq, Default)]
pub struct Proposal {
    /// The [`SignedMsgType`] of the proposal, as its number.
    pub type_: i32,
    /// Height of the proposal.
    pub height: i64,
    /// Round of the proposal.
    pub round: i32,
    /// Proof-of-lock round.
    pub pol_round: i32,
    /// The proposed block.
    pub block_id: Option<BlockId>,
    /// Time of the proposal.
    pub timestamp: Option<Timestamp>,
    /// Signature of the proposal.
    pub signature: Vec<u8>,
}

/// A header with the commit that signs it.
#[derive(Clone, Debug, PartialEq, Eq, Default)]
pub struct SignedHeader {
    /// The header.
    pub header: Option<Header>,
    /// The commit.
    pub commit: Option<Commit>,
}

/// A signed header with its validator set.
#[derive(Clone, Debug, PartialEq, Eq, Default)]
pub struct LightBlock {
    /// The signed header.
    pub signed_header: Option<SignedHeader>,
    /// The validators.
    pub validator_set: Option<ValidatorSet>,
}

/// Metadata of a block.
#[derive(Clone, Debug, PartialEq, Eq, Default)]
pub struct BlockMeta {
    /// The block.
    pub block_id: Option<BlockId>,
    /// Size of the block in bytes.
    pub block_size: i64,
    /// Header of the block.
    pub header: Option<Header>,
    /// Number of transactions.
    pub num_txs: i64,
}

/// TxProof represents a Merkle proof of the presence of a transaction in the Merkle tree.
#[derive(Clone, Debug, PartialEq, Eq, Default)]
pub struct TxProof {
    /// Root of the tree.
    pub root_hash: Vec<u8>,
    /// The transaction.
    pub data: Vec<u8>,
    /// The proof.
    pub proof: Option<Proof>,
}

/// BlockIdFlag indicates which BlcokID the signature is for
#[derive(Clone, Copy, Debug, PartialEq, Eq, Structural, Hash, Default)]
pub enum BlockIdFlag {
    /// Number 0.
    #[default]
    Unknown,
    /// Number 1.
    Absent,
    /// Number 2.
    Commit,
    /// Number 3.
    Nil,
}

impl BlockIdFlag {
    /// Each value has the wire number that the protobuf definition gives it.
    pub proof fn lemma_wire_numbers()
        ensures
            BlockIdFlag::Unknown.spec_number() == 0i32,
            BlockIdFlag::Absent.spec_number() == 1i32,
            BlockIdFlag::Commit.spec_number() == 2i32,
            BlockIdFlag::Nil.spec_number() == 3i32,
    {
    }

    /// The number of the flag on the wire.
    pub open spec fn spec_number(self) -> i32 {
        match self {
            BlockIdFlag::Unknown => 0,
            BlockIdFlag::Absent => 1,
            BlockIdFlag::Commit => 2,
            BlockIdFlag::Nil => 3,
        }
    }

    /// The number of the flag on the wire.
    pub fn as_i32(self) -> (r: i32)
        ensures
            r == self.spec_number(),
    {
        match self {
            BlockIdFlag::Unknown => 0,
            BlockIdFlag::Absent => 1,
            BlockIdFlag::Commit => 2,
            BlockIdFlag::Nil => 3,
        }
    }

    /// The flag with the given number, if there is one.
    pub fn from_i32(value: i32) -> (r: Option<BlockIdFlag>)
        ensures
            r matches Some(f) ==> f.spec_number() == value,
            r is None ==> forall|f: BlockIdFlag| f.spec_number() != value,
    {
        match value {
            0 => Some(BlockIdFlag::Unknown),
            1 => Some(BlockIdFlag::Absent),
            2 => Some(BlockIdFlag::Commit),
            3 => Some(BlockIdFlag::Nil),
            _ => None,
        }
    }

    /// Whether a flag has the given number.
    pub fn is_valid(value: i32) -> (r: bool)
        ensures
            r == exists|f: BlockIdFlag| f.spec_number() == value,
    {
        let r = Self::from_i32(value);
        proof {
            if let Some(f) = r {
                assert(f.spec_number() == value);
            }
        }
        r.is_some()
    }
}

/// SignedMsgType is a type of signed message in the consensus.
#[derive(Clone, Copy, Debug, PartialEq, Eq, Structural, Hash, Default)]
pub enum SignedMsgType {
    /// Number 0.
    #[default]
    Unknown,
    /// Votes; number 1.
    Prevote,
    /// Number 2.
    Precommit,
    /// Proposals; number 32.
    Proposal,
}

impl SignedMsgType {
    /// Each value has the wire number that the protobuf definition gives it.
    pub proof fn lemma_wire_numbers()
        ensures
            SignedMsgType::Unknown.spec_number() == 0i32,
            SignedMsgType::Prevote.spec_number() == 1i32,
            SignedMsgType::Precommit.spec_number() == 2i32,
            SignedMsgType::Proposal.spec_number() == 32i32,
    {
    }

    /// The number of the message type on the wire.
    pub open spec fn spec_number(self) -> i32 {
        match self {
            SignedMsgType::Unknown => 0,
            SignedMsgType::Prevote => 1,
            SignedMsgType::Precommit => 2,
            SignedMsgType::Proposal => 32,
        }
    }

    /// The number of the message type on the wire.
    pub fn as_i32(self) -> (r: i32)
        ensures
            r == self.spec_number(),
    {
        match self {
            SignedMsgType::Unknown => 0,
            SignedMsgType::Prevote => 1,
            SignedMsgType::Precommit => 2,
            SignedMsgType::Proposal => 32,
        }
    }

    /// The message type with the given number, if there is one.
    pub fn from_i32(value: i32) -> (r: Option<SignedMsgType>)
        ensures
            r matches Some(t) ==> t.spec_number() == value,
            r is None ==> forall|t: SignedMsgType| t.spec_number() != value,
    {
        match value {
            0 => Some(SignedMsgType::Unknown),
            1 => Some(SignedMsgType::Prevote),
            2 => Some(SignedMsgType::Precommit),
            32 => Some(SignedMsgType::Proposal),
            _ => None,
        }
    }

    /// Whether a message type has the given number.
    pub fn is_valid(value: i32) -> (r: bool)
        ensures
            r == exists|t: SignedMsgType| t.spec_number() == value,
    {
        let r = Self::from_i32(value);
        proof {
            if let Some(t) = r {
                assert(t.spec_number() == value);
            }
        }
        r.is_some()
    }
}

/// The state of a consensus round.
#[derive(Clone, Debug, PartialEq, Eq, Default)]
pub struct EventDataRoundState {
    /// Height of the round.
    pub height: i64,
    /// Number of the round.
    pub round: i32,
    /// Step within the round.
    pub step: String,
}

/// ConsensusParams contains consensus critical parameters that determine the
/// validity of blocks.
#[derive(Clone, Debug, PartialEq, Eq, Default)]
pub struct ConsensusParams {
    /// Block limits.
    pub block: Option<BlockParams>,
    /// Evidence handling.
    pub evidence: Option<EvidenceParams>,
    /// Validator key types.
    pub validator: Option<ValidatorParams>,
    /// Application version.
    pub version: Option<VersionParams>,
}

/// BlockParams contains limits on the block size.
#[derive(Clone, Copy, Debug, PartialEq, Eq, Structural, Default)]
pub struct BlockParams {
    /// Max block size, in bytes.
    /// Note: must be greater than 0
    pub max_bytes: i64,
    /// Max gas per block.
    /// Note: must be greater or equal to -1
    pub max_gas: i64,
    /// Minimum time increment between consecutive blocks (in milliseconds).
    pub time_iota_ms: i64,
}

/// EvidenceParams determine how we handle evidence of malfeasance.
#[derive(Clone, Copy, Debug, PartialEq, Eq, Structural, Default)]
pub struct EvidenceParams {
    /// Max age of evidence, in blocks.
    pub max_age_num_blocks: i64,
    /// Max age of evidence, in time.
    pub max_age_duration: Option<Duration>,
    /// This sets the maximum size of total evidence in bytes that can be committed in a single block.
    pub max_bytes: i64,
}

/// ValidatorParams restrict the public key types validators can use.
/// NOTE: uses ABCI pubkey naming, not Amino names.
#[derive(Clone, Debug, PartialEq, Eq, Default)]
pub struct ValidatorParams {
    /// The accepted key types.
    pub pub_key_types: Vec<String>,
}

/// VersionParams contains the ABCI application version.
#[derive(Clone, Copy, Debug, PartialEq, Eq, Structural, Default)]
pub struct VersionParams {
    /// The application version.
    pub app_version: u64,
}

/// HashedParams is a subset of ConsensusParams.
///
/// It is hashed into the Header.ConsensusHash.
#[derive(Clone, Copy, Debug, PartialEq, Eq, Structural, Default)]
pub struct HashedParams {
    /// Max block size.
    pub block_max_bytes: i64,
    /// Max gas per block.
    pub block_max_gas: i64,
}

/// Evidence of misbehavior.
#[derive(Clone, Debug, PartialEq, Eq, Default)]
pub struct Evidence {
    /// The evidence, by kind.
    pub sum: Option<evidence::Sum>,
}

/// DuplicateVoteEvidence contains evidence of a validator signed two conflicting votes.
#[derive(Clone, Debug, PartialEq, Eq, Default)]
pub struct DuplicateVoteEvidence {
    /// First vote.
    pub vote_a: Option<Vote>,
    /// Second vote.
    pub vote_b: Option<Vote>,
    /// Total voting power of the validator set.
    pub total_voting_power: i64,
    /// Voting power of the validator.
    pub validator_power: i64,
    /// Time of the evidence.
    pub timestamp: Option<Timestamp>,
}

/// LightClientAttackEvidence contains evidence of a set of validators attempting to mislead a light client.
#[derive(Clone, Debug, PartialEq, Eq, Default)]
pub struct LightClientAttackEvidence {
    /// The conflicting block.
    pub conflicting_block: Option<LightBlock>,
    /// The last height both chains share.
    pub common_height: i64,
    /// The misbehaving validators.
    pub byzantine_validators: Vec<Validator>,
    /// Total voting power of the validator set.
    pub total_voting_power: i64,
    /// Time of the evidence.
    pub timestamp: Option<Timestamp>,
}

/// A list of evidence.
#[derive(Clone, Debug, PartialEq, Eq, Default)]
pub struct EvidenceList {
    /// The evidence.
    pub evidence: Vec<Evidence>,
}

/// A block ID as it is signed.
#[derive(Clone, Debug, PartialEq, Eq, Default)]
pub struct CanonicalBlockId {
    /// Hash of the block.
    pub hash: Vec<u8>,
    /// Header of the block's part set.
    pub part_set_header: Option<CanonicalPartSetHeader>,
}

/// A part set header as it is signed.
#[derive(Clone, Debug, PartialEq, Eq, Default)]
pub struct CanonicalPartSetHeader {
    /// Number of parts.
    pub total: u32,
    /// Hash of the parts.
    pub hash: Vec<u8>,
}

/// A proposal as it is signed.
#[derive(Clone, Debug, PartialEq, Eq, Default)]
pub struct CanonicalProposal {
    /// type alias for byte
    pub type_: i32,
    /// canonicalization requires fixed size encoding here
    pub height: i64,
    /// canonicalization requires fixed size encoding here
    pub round: i64,
    /// Proof-of-lock round.
    pub pol_round: i64,
    /// The proposed block.
    pub block_id: Option<CanonicalBlockId>,
    /// Time of the proposal.
    pub timestamp: Option<Timestamp>,
    /// Chain of the proposal.
    pub chain_id: String,
}

/// A vote as it is signed.
#[derive(Clone, Debug, PartialEq, Eq, Default)]
pub struct CanonicalVote {
    /// type alias for byte
    pub type_: i32,
    /// canonicalization requires fixed size encoding here
    pub height: i64,
    /// canonicalization requires fixed size encoding here
    pub round: i64,
    /// The voted block.
    pub block_id: Option<CanonicalBlockId>,
    /// Time of the vote.
    pub timestamp: Option<Timestamp>,
    /// Chain of the vote.
    pub chain_id: String,
}

/// A block.
#[derive(Clone, Debug, PartialEq, Eq, Default)]
pub struct Block {
    /// Header of the block.
    pub header: Option<Header>,
    /// Transactions of the block.
    pub data: Option<Data>,
    /// Evidence in the block.
    pub evidence: Option<EvidenceList>,
    /// Commit of the previous block.
    pub last_commit: Option<Commit>,
}

} // verus!
