//! This module defines the various errors that be raised during Protobuf conversions.

use vstd::prelude::*;
use vstd::string::StringExecFns;

verus! {

/// Errors of the conversions between wire and domain types.
#[derive(Clone, Debug, PartialEq, Eq)]
pub enum Error {
    /// The message could not be converted into the domain type.
    TryFromProtobuf {
        /// Why the conversion failed.
        reason: String,
    },
    /// The message could not be encoded; the detail is the encoder's message.
    EncodeMessage(String),
    /// The buffer could not be decoded; the detail is the decoder's message.
    DecodeMessage(String),
    /// The encoded length could not be read; the detail is the conversion's message.
    ParseLength(String),
}

impl Error {
    /// The error for a failed conversion into a domain type, whose error
    /// displays as `reason`.
    pub fn try_from(reason: String) -> (r: Error)
        ensures
            r == (Error::TryFromProtobuf { reason }),
    {
        Error::TryFromProtobuf { reason }
    }

    /// What the error displays.
    /// Each error has the message given here.
    pub proof fn lemma_messages()
        ensures
            forall|reason: String| #[trigger] (Error::TryFromProtobuf { reason }).spec_message() == "error converting message type into domain type: "@ + reason@,
            forall|x0: String| #[trigger] (Error::EncodeMessage(x0)).spec_message() == "error encoding message into buffer"@,
            forall|x0: String| #[trigger] (Error::DecodeMessage(x0)).spec_message() == "error decoding buffer into message"@,
            forall|x0: String| #[trigger] (Error::ParseLength(x0)).spec_message() == "error parsing encoded length"@,
    {
    }

    pub open spec fn spec_message(&self) -> Seq<char> {
        match self {
            Error::TryFromProtobuf { reason } => "error converting message type into domain type: "@
                + reason@,
            Error::EncodeMessage(_) => "error encoding message into buffer"@,
            Error::DecodeMessage(_) => "error decoding buffer into message"@,
            Error::ParseLength(_) => "error parsing encoded length"@,
        }
    }

    /// What the error displays.
    pub fn message(&self) -> (r: String)
        ensures
            r@ == self.spec_message(),
    {
        match self {
            Error::TryFromProtobuf { reason } => {
                let mut m = "error converting message type into domain type: ".to_owned();
                m.append(reason.as_str());
                m
            },
            Error::EncodeMessage(_) => "error encoding message into buffer".to_owned(),
            Error::DecodeMessage(_) => "error decoding buffer into message".to_owned(),
            Error::ParseLength(_) => "error parsing encoded length".to_owned(),
        }
    }
}

} // verus!
