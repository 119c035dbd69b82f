//! Errors relating to the RPC probe's operations.

use vstd::prelude::*;
use vstd::string::StringExecFns;

verus! {

/// Errors of the probe.
#[derive(Clone, Debug, PartialEq, Eq)]
pub enum Error {
    /// An internal error occurred.
    InternalError(String),
    /// The WebSocket connection failed.
    WebSocketError(String),
    /// A request timed out.
    Timeout(String),
    /// A response could not be read.
    MalformedResponse(String),
    /// A request failed; the method and the response.
    Failed(String, String),
}

impl Error {
    /// What the error displays.
    /// Each error has the message given here.
    pub proof fn lemma_messages()
        ensures
            forall|s: String| #[trigger] (Error::InternalError(s)).spec_message() == "an internal error occurred: "@ + s@,
            forall|s: String| #[trigger] (Error::WebSocketError(s)).spec_message() == "WebSocket connection error: "@ + s@,
            forall|s: String| #[trigger] (Error::Timeout(s)).spec_message() == "timed out: "@ + s@,
            forall|s: String| #[trigger] (Error::MalformedResponse(s)).spec_message() == "malformed RPC response: "@ + s@,
            forall|m: String, r: String| #[trigger] (Error::Failed(m, r)).spec_message() == m@ + " request failed: "@ + r@,
    {
    }

    pub open spec fn spec_message(&self) -> Seq<char> {
        match self {
            Error::InternalError(s) => "an internal error occurred: "@ + s@,
            Error::WebSocketError(s) => "WebSocket connection error: "@ + s@,
            Error::Timeout(s) => "timed out: "@ + s@,
            Error::MalformedResponse(s) => "malformed RPC response: "@ + s@,
            Error::Failed(m, r) => m@ + " request failed: "@ + r@,
        }
    }

    /// What the error displays.
    pub fn message(&self) -> (r: String)
        ensures
            r@ == self.spec_message(),
    {
        match self {
            Error::InternalError(s) => {
                let mut m = "an internal error occurred: ".to_owned();
                m.append(s.as_str());
                m
            },
            Error::WebSocketError(s) => {
                let mut m = "WebSocket connection error: ".to_owned();
                m.append(s.as_str());
                m
            },
            Error::Timeout(s) => {
                let mut m = "timed out: ".to_owned();
                m.append(s.as_str());
                m
            },
            Error::MalformedResponse(s) => {
                let mut m = "malformed RPC response: ".to_owned();
                m.append(s.as_str());
                m
            },
            Error::Failed(method, response) => {
                let mut m = method.clone();
                m.append(" request failed: ");
                m.append(response.as_str());
                m
            },
        }
    }

    /// The error for a message that could not be sent to a channel, whose
    /// error displays as `detail`.
    pub fn from_send_error(detail: &str) -> (r: Error)
        ensures
            r is InternalError,
            r->InternalError_0@ == "failed to send to channel: "@ + detail@,
    {
        let mut m = "failed to send to channel: ".to_owned();
        m.append(detail);
        Error::InternalError(m)
    }

    /// The error for an asynchronous task that failed, whose error displays
    /// as `detail`.
    pub fn from_join_error(detail: &str) -> (r: Error)
        ensures
            r is InternalError,
            r->InternalError_0@ == "failed while waiting for async task to join: "@ + detail@,
    {
        let mut m = "failed while waiting for async task to join: ".to_owned();
        m.append(detail);
        Error::InternalError(m)
    }
}

} // verus!
