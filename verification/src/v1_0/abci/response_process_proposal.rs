//! Nested enumeration of `ResponseProcessProposal`.

use vstd::prelude::*;

use crate::text::str_eq;

verus! {

/// The application's verdict on a proposed block.
#[derive(Clone, Copy, Debug, PartialEq, Eq, Structural, Hash)]
pub enum ProposalStatus {
    /// Number 0.
    Unknown,
    /// Number 1.
    Accept,
    /// Number 2.
    Reject,
}

impl ProposalStatus {
    /// Each value bears the literal name that the protobuf definition gives
    /// it, and that name reads back as the value.
    pub proof fn lemma_protobuf_names()
        ensures
            ProposalStatus::Unknown.spec_str_name() == "UNKNOWN"@,
            ProposalStatus::Accept.spec_str_name() == "ACCEPT"@,
            ProposalStatus::Reject.spec_str_name() == "REJECT"@,
            ProposalStatus::spec_from_str_name("UNKNOWN"@) == Some(ProposalStatus::Unknown),
            ProposalStatus::spec_from_str_name("ACCEPT"@) == Some(ProposalStatus::Accept),
            ProposalStatus::spec_from_str_name("REJECT"@) == Some(ProposalStatus::Reject),
    {
        ProposalStatus::lemma_str_name_roundtrip(ProposalStatus::Unknown);
        ProposalStatus::lemma_str_name_roundtrip(ProposalStatus::Accept);
        ProposalStatus::lemma_str_name_roundtrip(ProposalStatus::Reject);
    }

    /// The name of the value in the protobuf definition.
    pub open spec fn spec_str_name(self) -> Seq<char> {
        match self {
            ProposalStatus::Unknown => "UNKNOWN"@,
            ProposalStatus::Accept => "ACCEPT"@,
            ProposalStatus::Reject => "REJECT"@,
        }
    }

    /// The value with the given name in the protobuf definition, if any.
    pub open spec fn spec_from_str_name(s: Seq<char>) -> Option<Self> {
        if s == "UNKNOWN"@ {
            Some(ProposalStatus::Unknown)
        } else if s == "ACCEPT"@ {
            Some(ProposalStatus::Accept)
        } else if s == "REJECT"@ {
            Some(ProposalStatus::Reject)
        } else {
            None
        }
    }

    /// String value of the enum field names used in the ProtoBuf definition.
    ///
    /// The values are not transformed in any way and thus are considered stable
    /// (if the ProtoBuf definition does not change) and safe for programmatic use.
    pub fn as_str_name(&self) -> (r: &'static str)
        ensures
            r@ == self.spec_str_name(),
    {
        match self {
            ProposalStatus::Unknown => "UNKNOWN",
            ProposalStatus::Accept => "ACCEPT",
            ProposalStatus::Reject => "REJECT",
        }
    }

    /// Creates an enum from field names used in the ProtoBuf definition.
    pub fn from_str_name(value: &str) -> (r: Option<Self>)
        ensures
            r == Self::spec_from_str_name(value@),
    {
        if str_eq(value, "UNKNOWN") {
            Some(ProposalStatus::Unknown)
        } else if str_eq(value, "ACCEPT") {
            Some(ProposalStatus::Accept)
        } else if str_eq(value, "REJECT") {
            Some(ProposalStatus::Reject)
        } else {
            None
        }
    }

    /// Reading the name of a value gives that value back.
    pub proof fn lemma_str_name_roundtrip(self)
        ensures
            Self::spec_from_str_name(self.spec_str_name()) == Some(self),
    {
        reveal_strlit("UNKNOWN");
        reveal_strlit("ACCEPT");
        reveal_strlit("REJECT");
        assert("ACCEPT"@.len() != "UNKNOWN"@.len());
        assert("REJECT"@.len() != "UNKNOWN"@.len());
        assert("REJECT"@[0] != "ACCEPT"@[0]);
    }
}

} // verus!
