//! Routing of requests to the `tendermint.rpc.grpc.BroadcastAPI` gRPC service: which method
//! serves a request path.

use vstd::prelude::*;
use vstd::string::StringExecFns;

use crate::text::str_eq;

verus! {

/// The methods of the `tendermint.rpc.grpc.BroadcastAPI` service.
#[derive(Clone, Copy, Debug, PartialEq, Eq, Structural, Hash)]
pub enum BroadcastApiMethod {
    /// `Ping`.
    Ping,
    /// `BroadcastTx`.
    BroadcastTx,
}

/// The name of the service.
pub fn service_name() -> (r: &'static str)
    ensures
        r@ == "tendermint.rpc.grpc.BroadcastAPI"@,
{
    "tendermint.rpc.grpc.BroadcastAPI"
}

/// The start of the request path of every method of the service: the
/// service's name between slashes.
pub open spec fn spec_path_prefix() -> Seq<char> {
    "/"@ + "tendermint.rpc.grpc.BroadcastAPI"@ + "/"@
}

/// The start of the request path of every method of the service.
pub fn path_prefix() -> (r: String)
    ensures
        r@ == spec_path_prefix(),
{
    let mut r = "/".to_owned();
    r.append(service_name());
    r.append("/");
    r
}

impl BroadcastApiMethod {
    /// The name of the method.
    pub open spec fn spec_name(self) -> Seq<char> {
        match self {
            BroadcastApiMethod::Ping => "Ping"@,
            BroadcastApiMethod::BroadcastTx => "BroadcastTx"@,
        }
    }

    /// The method of the given name, if any.
    pub open spec fn spec_from_name(name: Seq<char>) -> Option<Self> {
        if name == "Ping"@ {
            Some(BroadcastApiMethod::Ping)
        } else if name == "BroadcastTx"@ {
            Some(BroadcastApiMethod::BroadcastTx)
        } else {
            None
        }
    }

    /// The request path of the method.
    pub open spec fn spec_path(self) -> Seq<char> {
        spec_path_prefix() + self.spec_name()
    }

    /// The method that serves a request path, if any: the path is the
    /// service's prefix followed by the name of the method.
    pub open spec fn spec_route(path: Seq<char>) -> Option<Self> {
        let n = spec_path_prefix().len();
        if path.len() >= n && path.subrange(0, n as int) == spec_path_prefix() {
            Self::spec_from_name(path.subrange(n as int, path.len() as int))
        } else {
            None
        }
    }

    /// The name of the method.
    pub fn name(self) -> (r: &'static str)
        ensures
            r@ == self.spec_name(),
    {
        match self {
            BroadcastApiMethod::Ping => "Ping",
            BroadcastApiMethod::BroadcastTx => "BroadcastTx",
        }
    }

    /// The method of the given name, if any.
    pub fn from_name(name: &str) -> (r: Option<Self>)
        ensures
            r == Self::spec_from_name(name@),
    {
        if str_eq(name, "Ping") {
            Some(BroadcastApiMethod::Ping)
        } else if str_eq(name, "BroadcastTx") {
            Some(BroadcastApiMethod::BroadcastTx)
        } else {
            None
        }
    }

    /// The request path of the method.
    pub fn path(self) -> (r: String)
        ensures
            r@ == self.spec_path(),
    {
        let mut r = path_prefix();
        r.append(self.name());
        r
    }

    /// The method that serves a request path; `None` for a path that no
    /// method serves, which is answered as unimplemented.
    pub fn route(path: &str) -> (r: Option<Self>)
        ensures
            r == Self::spec_route(path@),
    {
        let prefix = path_prefix();
        let n = prefix.as_str().unicode_len();
        let len = path.unicode_len();
        if len < n {
            return None;
        }
        let head = path.substring_char(0, n);
        if !str_eq(head, prefix.as_str()) {
            return None;
        }
        Self::from_name(path.substring_char(n, len))
    }

    /// The path of a method is routed to that method.
    pub proof fn lemma_route_path(self)
        ensures
            Self::spec_route(self.spec_path()) == Some(self),
    {
        let n = spec_path_prefix().len();
        assert(self.spec_path().subrange(0, n as int) =~= spec_path_prefix());
        assert(self.spec_path().subrange(n as int, self.spec_path().len() as int) =~= self.spec_name());
        reveal_strlit("Ping");
        reveal_strlit("BroadcastTx");
        assert("Ping"@.len() == 4);
        assert("BroadcastTx"@.len() == 11);
    }
}

/// Each method of the service is served under the literal name of its RPC
/// in the protobuf definition: the path made of the service's prefix and
/// that name is routed to that method.
pub proof fn lemma_rpc_names()
    ensures
        spec_path_prefix() == "/"@ + "tendermint.rpc.grpc.BroadcastAPI"@ + "/"@,
        BroadcastApiMethod::Ping.spec_name() == "Ping"@,
        BroadcastApiMethod::BroadcastTx.spec_name() == "BroadcastTx"@,
        BroadcastApiMethod::spec_route(spec_path_prefix() + "Ping"@) == Some(BroadcastApiMethod::Ping),
        BroadcastApiMethod::spec_route(spec_path_prefix() + "BroadcastTx"@) == Some(BroadcastApiMethod::BroadcastTx),
{
    BroadcastApiMethod::lemma_route_path(BroadcastApiMethod::Ping);
    BroadcastApiMethod::lemma_route_path(BroadcastApiMethod::BroadcastTx);
}

} // verus!
