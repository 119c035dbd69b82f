//! `cometbft.abci.v1beta2` enumerations, with the names that the protobuf
//! definition gives their values, and the routing of its gRPC service.

use vstd::prelude::*;

use crate::text::str_eq;

pub mod abci_application_server;
pub mod response_process_proposal;

verus! {

/// The kind of misbehaviour of a validator.
#[derive(Clone, Copy, Debug, PartialEq, Eq, Structural, Hash)]
pub enum MisbehaviorType {
    /// Number 0.
    Unknown,
    /// Number 1.
    DuplicateVote,
    /// Number 2.
    LightClientAttack,
}

impl MisbehaviorType {
    /// Each value bears the literal name that the protobuf definition gives
    /// it, and that name reads back as the value.
    pub proof fn lemma_protobuf_names()
        ensures
            MisbehaviorType::Unknown.spec_str_name() == "UNKNOWN"@,
            MisbehaviorType::DuplicateVote.spec_str_name() == "DUPLICATE_VOTE"@,
            MisbehaviorType::LightClientAttack.spec_str_name() == "LIGHT_CLIENT_ATTACK"@,
            MisbehaviorType::spec_from_str_name("UNKNOWN"@) == Some(MisbehaviorType::Unknown),
            MisbehaviorType::spec_from_str_name("DUPLICATE_VOTE"@) == Some(MisbehaviorType::DuplicateVote),
            MisbehaviorType::spec_from_str_name("LIGHT_CLIENT_ATTACK"@) == Some(MisbehaviorType::LightClientAttack),
    {
        MisbehaviorType::lemma_str_name_roundtrip(MisbehaviorType::Unknown);
        MisbehaviorType::lemma_str_name_roundtrip(MisbehaviorType::DuplicateVote);
        MisbehaviorType::lemma_str_name_roundtrip(MisbehaviorType::LightClientAttack);
    }

    /// The name of the value in the protobuf definition.
    pub open spec fn spec_str_name(self) -> Seq<char> {
        match self {
            MisbehaviorType::Unknown => "UNKNOWN"@,
            MisbehaviorType::DuplicateVote => "DUPLICATE_VOTE"@,
            MisbehaviorType::LightClientAttack => "LIGHT_CLIENT_ATTACK"@,
        }
    }

    /// The value with the given name in the protobuf definition, if any.
    pub open spec fn spec_from_str_name(s: Seq<char>) -> Option<Self> {
        if s == "UNKNOWN"@ {
            Some(MisbehaviorType::Unknown)
        } else if s == "DUPLICATE_VOTE"@ {
            Some(MisbehaviorType::DuplicateVote)
        } else if s == "LIGHT_CLIENT_ATTACK"@ {
            Some(MisbehaviorType::LightClientAttack)
        } else {
            None
        }
    }

    /// String value of the enum field names used in the ProtoBuf definition.
    ///
    /// The values are not transformed in any way and thus are considered stable
    /// (if the ProtoBuf definition does not change) and safe for programmatic use.
    pub fn as_str_name(&self) -> (r: &'static str)
        ensures
            r@ == self.spec_str_name(),
    {
        match self {
            MisbehaviorType::Unknown => "UNKNOWN",
            MisbehaviorType::DuplicateVote => "DUPLICATE_VOTE",
            MisbehaviorType::LightClientAttack => "LIGHT_CLIENT_ATTACK",
        }
    }

    /// Creates an enum from field names used in the ProtoBuf definition.
    pub fn from_str_name(value: &str) -> (r: Option<Self>)
        ensures
            r == Self::spec_from_str_name(value@),
    {
        if str_eq(value, "UNKNOWN") {
            Some(MisbehaviorType::Unknown)
        } else if str_eq(value, "DUPLICATE_VOTE") {
            Some(MisbehaviorType::DuplicateVote)
        } else if str_eq(value, "LIGHT_CLIENT_ATTACK") {
            Some(MisbehaviorType::LightClientAttack)
        } else {
            None
        }
    }

    /// Reading the name of a value gives that value back.
    pub proof fn lemma_str_name_roundtrip(self)
        ensures
            Self::spec_from_str_name(self.spec_str_name()) == Some(self),
    {
        reveal_strlit("UNKNOWN");
        reveal_strlit("DUPLICATE_VOTE");
        reveal_strlit("LIGHT_CLIENT_ATTACK");
        assert("DUPLICATE_VOTE"@.len() != "UNKNOWN"@.len());
        assert("LIGHT_CLIENT_ATTACK"@.len() != "UNKNOWN"@.len());
        assert("LIGHT_CLIENT_ATTACK"@.len() != "DUPLICATE_VOTE"@.len());
    }
}

} // verus!
