//! Nested enumeration of `ResponseApplySnapshotChunk`.

use vstd::prelude::*;

use crate::text::str_eq;

verus! {

/// The application's answer to an applied snapshot chunk.
#[derive(Clone, Copy, Debug, PartialEq, Eq, Structural, Hash)]
pub enum Result {
    /// Unknown result, abort all snapshot restoration
    Unknown,
    /// Chunk successfully accepted
    Accept,
    /// Abort all snapshot restoration
    Abort,
    /// Retry chunk (combine with refetch and reject)
    Retry,
    /// Retry snapshot (combine with refetch and reject)
    RetrySnapshot,
    /// Reject this snapshot, try others
    RejectSnapshot,
}

impl Result {
    /// Each value bears the literal name that the protobuf definition gives
    /// it, and that name reads back as the value.
    pub proof fn lemma_protobuf_names()
        ensures
            Result::Unknown.spec_str_name() == "UNKNOWN"@,
            Result::Accept.spec_str_name() == "ACCEPT"@,
            Result::Abort.spec_str_name() == "ABORT"@,
            Result::Retry.spec_str_name() == "RETRY"@,
            Result::RetrySnapshot.spec_str_name() == "RETRY_SNAPSHOT"@,
            Result::RejectSnapshot.spec_str_name() == "REJECT_SNAPSHOT"@,
            Result::spec_from_str_name("UNKNOWN"@) == Some(Result::Unknown),
            Result::spec_from_str_name("ACCEPT"@) == Some(Result::Accept),
            Result::spec_from_str_name("ABORT"@) == Some(Result::Abort),
            Result::spec_from_str_name("RETRY"@) == Some(Result::Retry),
            Result::spec_from_str_name("RETRY_SNAPSHOT"@) == Some(Result::RetrySnapshot),
            Result::spec_from_str_name("REJECT_SNAPSHOT"@) == Some(Result::RejectSnapshot),
    {
        Result::lemma_str_name_roundtrip(Result::Unknown);
        Result::lemma_str_name_roundtrip(Result::Accept);
        Result::lemma_str_name_roundtrip(Result::Abort);
        Result::lemma_str_name_roundtrip(Result::Retry);
        Result::lemma_str_name_roundtrip(Result::RetrySnapshot);
        Result::lemma_str_name_roundtrip(Result::RejectSnapshot);
    }

    /// The name of the value in the protobuf definition.
    pub open spec fn spec_str_name(self) -> Seq<char> {
        match self {
            Result::Unknown => "UNKNOWN"@,
            Result::Accept => "ACCEPT"@,
            Result::Abort => "ABORT"@,
            Result::Retry => "RETRY"@,
            Result::RetrySnapshot => "RETRY_SNAPSHOT"@,
            Result::RejectSnapshot => "REJECT_SNAPSHOT"@,
        }
    }

    /// The value with the given name in the protobuf definition, if any.
    pub open spec fn spec_from_str_name(s: Seq<char>) -> Option<Self> {
        if s == "UNKNOWN"@ {
            Some(Result::Unknown)
        } else if s == "ACCEPT"@ {
            Some(Result::Accept)
        } else if s == "ABORT"@ {
            Some(Result::Abort)
        } else if s == "RETRY"@ {
            Some(Result::Retry)
        } else if s == "RETRY_SNAPSHOT"@ {
            Some(Result::RetrySnapshot)
        } else if s == "REJECT_SNAPSHOT"@ {
            Some(Result::RejectSnapshot)
        } else {
            None
        }
    }

    /// String value of the enum field names used in the ProtoBuf definition.
    ///
    /// The values are not transformed in any way and thus are considered stable
    /// (if the ProtoBuf definition does not change) and safe for programmatic use.
    pub fn as_str_name(&self) -> (r: &'static str)
        ensures
            r@ == self.spec_str_name(),
    {
        match self {
            Result::Unknown => "UNKNOWN",
            Result::Accept => "ACCEPT",
            Result::Abort => "ABORT",
            Result::Retry => "RETRY",
            Result::RetrySnapshot => "RETRY_SNAPSHOT",
            Result::RejectSnapshot => "REJECT_SNAPSHOT",
        }
    }

    /// Creates an enum from field names used in the ProtoBuf definition.
    pub fn from_str_name(value: &str) -> (r: Option<Self>)
        ensures
            r == Self::spec_from_str_name(value@),
    {
        if str_eq(value, "UNKNOWN") {
            Some(Result::Unknown)
        } else if str_eq(value, "ACCEPT") {
            Some(Result::Accept)
        } else if str_eq(value, "ABORT") {
            Some(Result::Abort)
        } else if str_eq(value, "RETRY") {
            Some(Result::Retry)
        } else if str_eq(value, "RETRY_SNAPSHOT") {
            Some(Result::RetrySnapshot)
        } else if str_eq(value, "REJECT_SNAPSHOT") {
            Some(Result::RejectSnapshot)
        } else {
            None
        }
    }

    /// Reading the name of a value gives that value back.
    pub proof fn lemma_str_name_roundtrip(self)
        ensures
            Self::spec_from_str_name(self.spec_str_name()) == Some(self),
    {
        reveal_strlit("UNKNOWN");
        reveal_strlit("ACCEPT");
        reveal_strlit("ABORT");
        reveal_strlit("RETRY");
        reveal_strlit("RETRY_SNAPSHOT");
        reveal_strlit("REJECT_SNAPSHOT");
        assert("ACCEPT"@.len() != "UNKNOWN"@.len());
        assert("ABORT"@.len() != "UNKNOWN"@.len());
        assert("ABORT"@.len() != "ACCEPT"@.len());
        assert("RETRY"@.len() != "UNKNOWN"@.len());
        assert("RETRY"@.len() != "ACCEPT"@.len());
        assert("RETRY"@[0] != "ABORT"@[0]);
        assert("RETRY_SNAPSHOT"@.len() != "UNKNOWN"@.len());
        assert("RETRY_SNAPSHOT"@.len() != "ACCEPT"@.len());
        assert("RETRY_SNAPSHOT"@.len() != "ABORT"@.len());
        assert("RETRY_SNAPSHOT"@.len() != "RETRY"@.len());
        assert("REJECT_SNAPSHOT"@.len() != "UNKNOWN"@.len());
        assert("REJECT_SNAPSHOT"@.len() != "ACCEPT"@.len());
        assert("REJECT_SNAPSHOT"@.len() != "ABORT"@.len());
        assert("REJECT_SNAPSHOT"@.len() != "RETRY"@.len());
        assert("REJECT_SNAPSHOT"@.len() != "RETRY_SNAPSHOT"@.len());
    }
}

} // verus!
