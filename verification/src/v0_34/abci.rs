//! `tendermint.abci` enumerations of the v0.34 line, with the names that
//! the protobuf definition gives their values, and the routing of its gRPC
//! service.

use vstd::prelude::*;

use crate::text::str_eq;

pub mod abci_application_server;
pub mod response_apply_snapshot_chunk;
pub mod response_offer_snapshot;

verus! {

/// Whether a transaction is checked for the first time or again.
#[derive(Clone, Copy, Debug, PartialEq, Eq, Structural, Hash)]
pub enum CheckTxType {
    /// Number 0.
    New,
    /// Number 1.
    Recheck,
}

impl CheckTxType {
    /// Each value bears the literal name that the protobuf definition gives
    /// it, and that name reads back as the value.
    pub proof fn lemma_protobuf_names()
        ensures
            CheckTxType::New.spec_str_name() == "NEW"@,
            CheckTxType::Recheck.spec_str_name() == "RECHECK"@,
            CheckTxType::spec_from_str_name("NEW"@) == Some(CheckTxType::New),
            CheckTxType::spec_from_str_name("RECHECK"@) == Some(CheckTxType::Recheck),
    {
        CheckTxType::lemma_str_name_roundtrip(CheckTxType::New);
        CheckTxType::lemma_str_name_roundtrip(CheckTxType::Recheck);
    }

    /// The name of the value in the protobuf definition.
    pub open spec fn spec_str_name(self) -> Seq<char> {
        match self {
            CheckTxType::New => "NEW"@,
            CheckTxType::Recheck => "RECHECK"@,
        }
    }

    /// The value with the given name in the protobuf definition, if any.
    pub open spec fn spec_from_str_name(s: Seq<char>) -> Option<Self> {
        if s == "NEW"@ {
            Some(CheckTxType::New)
        } else if s == "RECHECK"@ {
            Some(CheckTxType::Recheck)
        } else {
            None
        }
    }

    /// String value of the enum field names used in the ProtoBuf definition.
    ///
    /// The values are not transformed in any way and thus are considered stable
    /// (if the ProtoBuf definition does not change) and safe for programmatic use.
    pub fn as_str_name(&self) -> (r: &'static str)
        ensures
            r@ == self.spec_str_name(),
    {
        match self {
            CheckTxType::New => "NEW",
            CheckTxType::Recheck => "RECHECK",
        }
    }

    /// Creates an enum from field names used in the ProtoBuf definition.
    pub fn from_str_name(value: &str) -> (r: Option<Self>)
        ensures
            r == Self::spec_from_str_name(value@),
    {
        if str_eq(value, "NEW") {
            Some(CheckTxType::New)
        } else if str_eq(value, "RECHECK") {
            Some(CheckTxType::Recheck)
        } else {
            None
        }
    }

    /// Reading the name of a value gives that value back.
    pub proof fn lemma_str_name_roundtrip(self)
        ensures
            Self::spec_from_str_name(self.spec_str_name()) == Some(self),
    {
        reveal_strlit("NEW");
        reveal_strlit("RECHECK");
        assert("RECHECK"@.len() != "NEW"@.len());
    }
}

/// The kind of misbehaviour that evidence shows.
#[derive(Clone, Copy, Debug, PartialEq, Eq, Structural, Hash)]
pub enum EvidenceType {
    /// Number 0.
    Unknown,
    /// Number 1.
    DuplicateVote,
    /// Number 2.
    LightClientAttack,
}

impl EvidenceType {
    /// Each value bears the literal name that the protobuf definition gives
    /// it, and that name reads back as the value.
    pub proof fn lemma_protobuf_names()
        ensures
            EvidenceType::Unknown.spec_str_name() == "UNKNOWN"@,
            EvidenceType::DuplicateVote.spec_str_name() == "DUPLICATE_VOTE"@,
            EvidenceType::LightClientAttack.spec_str_name() == "LIGHT_CLIENT_ATTACK"@,
            EvidenceType::spec_from_str_name("UNKNOWN"@) == Some(EvidenceType::Unknown),
            EvidenceType::spec_from_str_name("DUPLICATE_VOTE"@) == Some(EvidenceType::DuplicateVote),
            EvidenceType::spec_from_str_name("LIGHT_CLIENT_ATTACK"@) == Some(EvidenceType::LightClientAttack),
    {
        EvidenceType::lemma_str_name_roundtrip(EvidenceType::Unknown);
        EvidenceType::lemma_str_name_roundtrip(EvidenceType::DuplicateVote);
        EvidenceType::lemma_str_name_roundtrip(EvidenceType::LightClientAttack);
    }

    /// The name of the value in the protobuf definition.
    pub open spec fn spec_str_name(self) -> Seq<char> {
        match self {
            EvidenceType::Unknown => "UNKNOWN"@,
            EvidenceType::DuplicateVote => "DUPLICATE_VOTE"@,
            EvidenceType::LightClientAttack => "LIGHT_CLIENT_ATTACK"@,
        }
    }

    /// The value with the given name in the protobuf definition, if any.
    pub open spec fn spec_from_str_name(s: Seq<char>) -> Option<Self> {
        if s == "UNKNOWN"@ {
            Some(EvidenceType::Unknown)
        } else if s == "DUPLICATE_VOTE"@ {
            Some(EvidenceType::DuplicateVote)
        } else if s == "LIGHT_CLIENT_ATTACK"@ {
            Some(EvidenceType::LightClientAttack)
        } else {
            None
        }
    }

    /// String value of the enum field names used in the ProtoBuf definition.
    ///
    /// The values are not transformed in any way and thus are considered stable
    /// (if the ProtoBuf definition does not change) and safe for programmatic use.
    pub fn as_str_name(&self) -> (r: &'static str)
        ensures
            r@ == self.spec_str_name(),
    {
        match self {
            EvidenceType::Unknown => "UNKNOWN",
            EvidenceType::DuplicateVote => "DUPLICATE_VOTE",
            EvidenceType::LightClientAttack => "LIGHT_CLIENT_ATTACK",
        }
    }

    /// Creates an enum from field names used in the ProtoBuf definition.
    pub fn from_str_name(value: &str) -> (r: Option<Self>)
        ensures
            r == Self::spec_from_str_name(value@),
    {
        if str_eq(value, "UNKNOWN") {
            Some(EvidenceType::Unknown)
        } else if str_eq(value, "DUPLICATE_VOTE") {
            Some(EvidenceType::DuplicateVote)
        } else if str_eq(value, "LIGHT_CLIENT_ATTACK") {
            Some(EvidenceType::LightClientAttack)
        } else {
            None
        }
    }

    /// Reading the name of a value gives that value back.
    pub proof fn lemma_str_name_roundtrip(self)
        ensures
            Self::spec_from_str_name(self.spec_str_name()) == Some(self),
    {
        reveal_strlit("UNKNOWN");
        reveal_strlit("DUPLICATE_VOTE");
        reveal_strlit("LIGHT_CLIENT_ATTACK");
        assert("DUPLICATE_VOTE"@.len() != "UNKNOWN"@.len());
        assert("LIGHT_CLIENT_ATTACK"@.len() != "UNKNOWN"@.len());
        assert("LIGHT_CLIENT_ATTACK"@.len() != "DUPLICATE_VOTE"@.len());
    }
}

} // verus!
