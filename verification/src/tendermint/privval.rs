//! `tendermint.privval`: the errors of a remote signer, and the routing of
//! its gRPC service.

use vstd::prelude::*;

pub mod priv_validator_api_server;

verus! {

/// The errors that a remote signer reports.
#[derive(Clone, Copy, Debug, PartialEq, Eq, Structural, Hash)]
pub enum Errors {
    /// Number 0.
    Unknown,
    /// Number 1.
    UnexpectedResponse,
    /// Number 2.
    NoConnection,
    /// Number 3.
    ConnectionTimeout,
    /// Number 4.
    ReadTimeout,
    /// Number 5.
    WriteTimeout,
}

impl Errors {
    /// Each value bears the literal name that the protobuf definition gives
    /// it.
    pub proof fn lemma_protobuf_names()
        ensures
            Errors::Unknown.spec_str_name() == "ERRORS_UNKNOWN"@,
            Errors::UnexpectedResponse.spec_str_name() == "ERRORS_UNEXPECTED_RESPONSE"@,
            Errors::NoConnection.spec_str_name() == "ERRORS_NO_CONNECTION"@,
            Errors::ConnectionTimeout.spec_str_name() == "ERRORS_CONNECTION_TIMEOUT"@,
            Errors::ReadTimeout.spec_str_name() == "ERRORS_READ_TIMEOUT"@,
            Errors::WriteTimeout.spec_str_name() == "ERRORS_WRITE_TIMEOUT"@,
    {
    }

    /// The name of the value in the protobuf definition.
    pub open spec fn spec_str_name(self) -> Seq<char> {
        match self {
            Errors::Unknown => "ERRORS_UNKNOWN"@,
            Errors::UnexpectedResponse => "ERRORS_UNEXPECTED_RESPONSE"@,
            Errors::NoConnection => "ERRORS_NO_CONNECTION"@,
            Errors::ConnectionTimeout => "ERRORS_CONNECTION_TIMEOUT"@,
            Errors::ReadTimeout => "ERRORS_READ_TIMEOUT"@,
            Errors::WriteTimeout => "ERRORS_WRITE_TIMEOUT"@,
        }
    }

    /// String value of the enum field names used in the ProtoBuf definition.
    ///
    /// The values are not transformed in any way and thus are considered stable
    /// (if the ProtoBuf definition does not change) and safe for programmatic use.
    pub fn as_str_name(&self) -> (r: &'static str)
        ensures
            r@ == self.spec_str_name(),
    {
        match self {
            Errors::Unknown => "ERRORS_UNKNOWN",
            Errors::UnexpectedResponse => "ERRORS_UNEXPECTED_RESPONSE",
            Errors::NoConnection => "ERRORS_NO_CONNECTION",
            Errors::ConnectionTimeout => "ERRORS_CONNECTION_TIMEOUT",
            Errors::ReadTimeout => "ERRORS_READ_TIMEOUT",
            Errors::WriteTimeout => "ERRORS_WRITE_TIMEOUT",
        }
    }
}

} // verus!
