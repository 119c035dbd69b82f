//! Nested enumeration of `ResponseOfferSnapshot`.

use vstd::prelude::*;

use crate::text::str_eq;

verus! {

/// The application's answer to an offered snapshot.
#[derive(Clone, Copy, Debug, PartialEq, Eq, Structural, Hash)]
pub enum Result {
    /// Unknown result, abort all snapshot restoration
    Unknown,
    /// Snapshot accepted, apply chunks
    Accept,
    /// Abort all snapshot restoration
    Abort,
    /// Reject this specific snapshot, try others
    Reject,
    /// Reject all snapshots of this format, try others
    RejectFormat,
    /// Reject all snapshots from the sender(s), try others
    RejectSender,
}

impl Result {
    /// Each value bears the literal name that the protobuf definition gives
    /// it, and that name reads back as the value.
    pub proof fn lemma_protobuf_names()
        ensures
            Result::Unknown.spec_str_name() == "UNKNOWN"@,
            Result::Accept.spec_str_name() == "ACCEPT"@,
            Result::Abort.spec_str_name() == "ABORT"@,
            Result::Reject.spec_str_name() == "REJECT"@,
            Result::RejectFormat.spec_str_name() == "REJECT_FORMAT"@,
            Result::RejectSender.spec_str_name() == "REJECT_SENDER"@,
            Result::spec_from_str_name("UNKNOWN"@) == Some(Result::Unknown),
            Result::spec_from_str_name("ACCEPT"@) == Some(Result::Accept),
            Result::spec_from_str_name("ABORT"@) == Some(Result::Abort),
            Result::spec_from_str_name("REJECT"@) == Some(Result::Reject),
            Result::spec_from_str_name("REJECT_FORMAT"@) == Some(Result::RejectFormat),
            Result::spec_from_str_name("REJECT_SENDER"@) == Some(Result::RejectSender),
    {
        Result::lemma_str_name_roundtrip(Result::Unknown);
        Result::lemma_str_name_roundtrip(Result::Accept);
        Result::lemma_str_name_roundtrip(Result::Abort);
        Result::lemma_str_name_roundtrip(Result::Reject);
        Result::lemma_str_name_roundtrip(Result::RejectFormat);
        Result::lemma_str_name_roundtrip(Result::RejectSender);
    }

    /// The name of the value in the protobuf definition.
    pub open spec fn spec_str_name(self) -> Seq<char> {
        match self {
            Result::Unknown => "UNKNOWN"@,
            Result::Accept => "ACCEPT"@,
            Result::Abort => "ABORT"@,
            Result::Reject => "REJECT"@,
            Result::RejectFormat => "REJECT_FORMAT"@,
            Result::RejectSender => "REJECT_SENDER"@,
        }
    }

    /// The value with the given name in the protobuf definition, if any.
    pub open spec fn spec_from_str_name(s: Seq<char>) -> Option<Self> {
        if s == "UNKNOWN"@ {
            Some(Result::Unknown)
        } else if s == "ACCEPT"@ {
            Some(Result::Accept)
        } else if s == "ABORT"@ {
            Some(Result::Abort)
        } else if s == "REJECT"@ {
            Some(Result::Reject)
        } else if s == "REJECT_FORMAT"@ {
            Some(Result::RejectFormat)
        } else if s == "REJECT_SENDER"@ {
            Some(Result::RejectSender)
        } else {
            None
        }
    }

    /// String value of the enum field names used in the ProtoBuf definition.
    ///
    /// The values are not transformed in any way and thus are considered stable
    /// (if the ProtoBuf definition does not change) and safe for programmatic use.
    pub fn as_str_name(&self) -> (r: &'static str)
        ensures
            r@ == self.spec_str_name(),
    {
        match self {
            Result::Unknown => "UNKNOWN",
            Result::Accept => "ACCEPT",
            Result::Abort => "ABORT",
            Result::Reject => "REJECT",
            Result::RejectFormat => "REJECT_FORMAT",
            Result::RejectSender => "REJECT_SENDER",
        }
    }

    /// Creates an enum from field names used in the ProtoBuf definition.
    pub fn from_str_name(value: &str) -> (r: Option<Self>)
        ensures
            r == Self::spec_from_str_name(value@),
    {
        if str_eq(value, "UNKNOWN") {
            Some(Result::Unknown)
        } else if str_eq(value, "ACCEPT") {
            Some(Result::Accept)
        } else if str_eq(value, "ABORT") {
            Some(Result::Abort)
        } else if str_eq(value, "REJECT") {
            Some(Result::Reject)
        } else if str_eq(value, "REJECT_FORMAT") {
            Some(Result::RejectFormat)
        } else if str_eq(value, "REJECT_SENDER") {
            Some(Result::RejectSender)
        } else {
            None
        }
    }

    /// Reading the name of a value gives that value back.
    pub proof fn lemma_str_name_roundtrip(self)
        ensures
            Self::spec_from_str_name(self.spec_str_name()) == Some(self),
    {
        reveal_strlit("UNKNOWN");
        reveal_strlit("ACCEPT");
        reveal_strlit("ABORT");
        reveal_strlit("REJECT");
        reveal_strlit("REJECT_FORMAT");
        reveal_strlit("REJECT_SENDER");
        assert("ACCEPT"@.len() != "UNKNOWN"@.len());
        assert("ABORT"@.len() != "UNKNOWN"@.len());
        assert("ABORT"@.len() != "ACCEPT"@.len());
        assert("REJECT"@.len() != "UNKNOWN"@.len());
        assert("REJECT"@[0] != "ACCEPT"@[0]);
        assert("REJECT"@.len() != "ABORT"@.len());
        assert("REJECT_FORMAT"@.len() != "UNKNOWN"@.len());
        assert("REJECT_FORMAT"@.len() != "ACCEPT"@.len());
        assert("REJECT_FORMAT"@.len() != "ABORT"@.len());
        assert("REJECT_FORMAT"@.len() != "REJECT"@.len());
        assert("REJECT_SENDER"@.len() != "UNKNOWN"@.len());
        assert("REJECT_SENDER"@.len() != "ACCEPT"@.len());
        assert("REJECT_SENDER"@.len() != "ABORT"@.len());
        assert("REJECT_SENDER"@.len() != "REJECT"@.len());
        assert("REJECT_SENDER"@[7] != "REJECT_FORMAT"@[7]);
    }
}

} // verus!
