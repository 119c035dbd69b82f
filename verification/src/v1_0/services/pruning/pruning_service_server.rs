//! Routing of requests to the `cometbft.services.pruning.v1beta1.PruningService` gRPC service: which method
//! serves a request path.

use vstd::prelude::*;
use vstd::string::StringExecFns;

use crate::text::str_eq;

verus! {

/// The methods of the `cometbft.services.pruning.v1beta1.PruningService` service.
#[derive(Clone, Copy, Debug, PartialEq, Eq, Structural, Hash)]
pub enum PruningServiceMethod {
    /// `SetBlockRetainHeight`.
    SetBlockRetainHeight,
    /// `GetBlockRetainHeight`.
    GetBlockRetainHeight,
    /// `SetBlockResultsRetainHeight`.
    SetBlockResultsRetainHeight,
    /// `GetBlockResultsRetainHeight`.
    GetBlockResultsRetainHeight,
    /// `SetTxIndexerRetainHeight`.
    SetTxIndexerRetainHeight,
    /// `GetTxIndexerRetainHeight`.
    GetTxIndexerRetainHeight,
    /// `SetBlockIndexerRetainHeight`.
    SetBlockIndexerRetainHeight,
    /// `GetBlockIndexerRetainHeight`.
    GetBlockIndexerRetainHeight,
}

/// The name of the service.
pub fn service_name() -> (r: &'static str)
    ensures
        r@ == "cometbft.services.pruning.v1beta1.PruningService"@,
{
    "cometbft.services.pruning.v1beta1.PruningService"
}

/// The start of the request path of every method of the service: the
/// service's name between slashes.
pub open spec fn spec_path_prefix() -> Seq<char> {
    "/"@ + "cometbft.services.pruning.v1beta1.PruningService"@ + "/"@
}

/// The start of the request path of every method of the service.
pub fn path_prefix() -> (r: String)
    ensures
        r@ == spec_path_prefix(),
{
    let mut r = "/".to_owned();
    r.append(service_name());
    r.append("/");
    r
}

impl PruningServiceMethod {
    /// The name of the method.
    pub open spec fn spec_name(self) -> Seq<char> {
        match self {
            PruningServiceMethod::SetBlockRetainHeight => "SetBlockRetainHeight"@,
            PruningServiceMethod::GetBlockRetainHeight => "GetBlockRetainHeight"@,
            PruningServiceMethod::SetBlockResultsRetainHeight => "SetBlockResultsRetainHeight"@,
            PruningServiceMethod::GetBlockResultsRetainHeight => "GetBlockResultsRetainHeight"@,
            PruningServiceMethod::SetTxIndexerRetainHeight => "SetTxIndexerRetainHeight"@,
            PruningServiceMethod::GetTxIndexerRetainHeight => "GetTxIndexerRetainHeight"@,
            PruningServiceMethod::SetBlockIndexerRetainHeight => "SetBlockIndexerRetainHeight"@,
            PruningServiceMethod::GetBlockIndexerRetainHeight => "GetBlockIndexerRetainHeight"@,
        }
    }

    /// The method of the given name, if any.
    pub open spec fn spec_from_name(name: Seq<char>) -> Option<Self> {
        if name == "SetBlockRetainHeight"@ {
            Some(PruningServiceMethod::SetBlockRetainHeight)
        } else if name == "GetBlockRetainHeight"@ {
            Some(PruningServiceMethod::GetBlockRetainHeight)
        } else if name == "SetBlockResultsRetainHeight"@ {
            Some(PruningServiceMethod::SetBlockResultsRetainHeight)
        } else if name == "GetBlockResultsRetainHeight"@ {
            Some(PruningServiceMethod::GetBlockResultsRetainHeight)
        } else if name == "SetTxIndexerRetainHeight"@ {
            Some(PruningServiceMethod::SetTxIndexerRetainHeight)
        } else if name == "GetTxIndexerRetainHeight"@ {
            Some(PruningServiceMethod::GetTxIndexerRetainHeight)
        } else if name == "SetBlockIndexerRetainHeight"@ {
            Some(PruningServiceMethod::SetBlockIndexerRetainHeight)
        } else if name == "GetBlockIndexerRetainHeight"@ {
            Some(PruningServiceMethod::GetBlockIndexerRetainHeight)
        } else {
            None
        }
    }

    /// The request path of the method.
    pub open spec fn spec_path(self) -> Seq<char> {
        spec_path_prefix() + self.spec_name()
    }

    /// The method that serves a request path, if any: the path is the
    /// service's prefix followed by the name of the method.
    pub open spec fn spec_route(path: Seq<char>) -> Option<Self> {
        let n = spec_path_prefix().len();
        if path.len() >= n && path.subrange(0, n as int) == spec_path_prefix() {
            Self::spec_from_name(path.subrange(n as int, path.len() as int))
        } else {
            None
        }
    }

    /// The name of the method.
    pub fn name(self) -> (r: &'static str)
        ensures
            r@ == self.spec_name(),
    {
        match self {
            PruningServiceMethod::SetBlockRetainHeight => "SetBlockRetainHeight",
            PruningServiceMethod::GetBlockRetainHeight => "GetBlockRetainHeight",
            PruningServiceMethod::SetBlockResultsRetainHeight => "SetBlockResultsRetainHeight",
            PruningServiceMethod::GetBlockResultsRetainHeight => "GetBlockResultsRetainHeight",
            PruningServiceMethod::SetTxIndexerRetainHeight => "SetTxIndexerRetainHeight",
            PruningServiceMethod::GetTxIndexerRetainHeight => "GetTxIndexerRetainHeight",
            PruningServiceMethod::SetBlockIndexerRetainHeight => "SetBlockIndexerRetainHeight",
            PruningServiceMethod::GetBlockIndexerRetainHeight => "GetBlockIndexerRetainHeight",
        }
    }

    /// The method of the given name, if any.
    pub fn from_name(name: &str) -> (r: Option<Self>)
        ensures
            r == Self::spec_from_name(name@),
    {
        if str_eq(name, "SetBlockRetainHeight") {
            Some(PruningServiceMethod::SetBlockRetainHeight)
        } else if str_eq(name, "GetBlockRetainHeight") {
            Some(PruningServiceMethod::GetBlockRetainHeight)
        } else if str_eq(name, "SetBlockResultsRetainHeight") {
            Some(PruningServiceMethod::SetBlockResultsRetainHeight)
        } else if str_eq(name, "GetBlockResultsRetainHeight") {
            Some(PruningServiceMethod::GetBlockResultsRetainHeight)
        } else if str_eq(name, "SetTxIndexerRetainHeight") {
            Some(PruningServiceMethod::SetTxIndexerRetainHeight)
        } else if str_eq(name, "GetTxIndexerRetainHeight") {
            Some(PruningServiceMethod::GetTxIndexerRetainHeight)
        } else if str_eq(name, "SetBlockIndexerRetainHeight") {
            Some(PruningServiceMethod::SetBlockIndexerRetainHeight)
        } else if str_eq(name, "GetBlockIndexerRetainHeight") {
            Some(PruningServiceMethod::GetBlockIndexerRetainHeight)
        } else {
            None
        }
    }

    /// The request path of the method.
    pub fn path(self) -> (r: String)
        ensures
            r@ == self.spec_path(),
    {
        let mut r = path_prefix();
        r.append(self.name());
        r
    }

    /// The method that serves a request path; `None` for a path that no
    /// method serves, which is answered as unimplemented.
    pub fn route(path: &str) -> (r: Option<Self>)
        ensures
            r == Self::spec_route(path@),
    {
        let prefix = path_prefix();
        let n = prefix.as_str().unicode_len();
        let len = path.unicode_len();
        if len < n {
            return None;
        }
        let head = path.substring_char(0, n);
        if !str_eq(head, prefix.as_str()) {
            return None;
        }
        Self::from_name(path.substring_char(n, len))
    }

    /// The path of a method is routed to that method.
    pub proof fn lemma_route_path(self)
        ensures
            Self::spec_route(self.spec_path()) == Some(self),
    {
        let n = spec_path_prefix().len();
        assert(self.spec_path().subrange(0, n as int) =~= spec_path_prefix());
        assert(self.spec_path().subrange(n as int, self.spec_path().len() as int) =~= self.spec_name());
        reveal_strlit("SetBlockRetainHeight");
        reveal_strlit("GetBlockRetainHeight");
        reveal_strlit("SetBlockResultsRetainHeight");
        reveal_strlit("GetBlockResultsRetainHeight");
        reveal_strlit("SetTxIndexerRetainHeight");
        reveal_strlit("GetTxIndexerRetainHeight");
        reveal_strlit("SetBlockIndexerRetainHeight");
        reveal_strlit("GetBlockIndexerRetainHeight");
        assert("SetBlockRetainHeight"@.len() == 20 && "SetBlockRetainHeight"@[0] == 'S');
        assert("GetBlockRetainHeight"@.len() == 20 && "GetBlockRetainHeight"@[0] == 'G');
        assert("SetBlockResultsRetainHeight"@.len() == 27 && "SetBlockResultsRetainHeight"@[0] == 'S' && "SetBlockResultsRetainHeight"@[8] == 'R');
        assert("GetBlockResultsRetainHeight"@.len() == 27 && "GetBlockResultsRetainHeight"@[0] == 'G' && "GetBlockResultsRetainHeight"@[8] == 'R');
        assert("SetTxIndexerRetainHeight"@.len() == 24 && "SetTxIndexerRetainHeight"@[0] == 'S');
        assert("GetTxIndexerRetainHeight"@.len() == 24 && "GetTxIndexerRetainHeight"@[0] == 'G');
        assert("SetBlockIndexerRetainHeight"@.len() == 27 && "SetBlockIndexerRetainHeight"@[0] == 'S' && "SetBlockIndexerRetainHeight"@[8] == 'I');
        assert("GetBlockIndexerRetainHeight"@.len() == 27 && "GetBlockIndexerRetainHeight"@[0] == 'G' && "GetBlockIndexerRetainHeight"@[8] == 'I');
    }
}

/// Each method of the service is served under the literal name of its RPC
/// in the protobuf definition: the path made of the service's prefix and
/// that name is routed to that method.
pub proof fn lemma_rpc_names()
    ensures
        spec_path_prefix() == "/"@ + "cometbft.services.pruning.v1beta1.PruningService"@ + "/"@,
        PruningServiceMethod::SetBlockRetainHeight.spec_name() == "SetBlockRetainHeight"@,
        PruningServiceMethod::GetBlockRetainHeight.spec_name() == "GetBlockRetainHeight"@,
        PruningServiceMethod::SetBlockResultsRetainHeight.spec_name() == "SetBlockResultsRetainHeight"@,
        PruningServiceMethod::GetBlockResultsRetainHeight.spec_name() == "GetBlockResultsRetainHeight"@,
        PruningServiceMethod::SetTxIndexerRetainHeight.spec_name() == "SetTxIndexerRetainHeight"@,
        PruningServiceMethod::GetTxIndexerRetainHeight.spec_name() == "GetTxIndexerRetainHeight"@,
        PruningServiceMethod::SetBlockIndexerRetainHeight.spec_name() == "SetBlockIndexerRetainHeight"@,
        PruningServiceMethod::GetBlockIndexerRetainHeight.spec_name() == "GetBlockIndexerRetainHeight"@,
        PruningServiceMethod::spec_route(spec_path_prefix() + "SetBlockRetainHeight"@) == Some(PruningServiceMethod::SetBlockRetainHeight),
        PruningServiceMethod::spec_route(spec_path_prefix() + "GetBlockRetainHeight"@) == Some(PruningServiceMethod::GetBlockRetainHeight),
        PruningServiceMethod::spec_route(spec_path_prefix() + "SetBlockResultsRetainHeight"@) == Some(PruningServiceMethod::SetBlockResultsRetainHeight),
        PruningServiceMethod::spec_route(spec_path_prefix() + "GetBlockResultsRetainHeight"@) == Some(PruningServiceMethod::GetBlockResultsRetainHeight),
        PruningServiceMethod::spec_route(spec_path_prefix() + "SetTxIndexerRetainHeight"@) == Some(PruningServiceMethod::SetTxIndexerRetainHeight),
        PruningServiceMethod::spec_route(spec_path_prefix() + "GetTxIndexerRetainHeight"@) == Some(PruningServiceMethod::GetTxIndexerRetainHeight),
        PruningServiceMethod::spec_route(spec_path_prefix() + "SetBlockIndexerRetainHeight"@) == Some(PruningServiceMethod::SetBlockIndexerRetainHeight),
        PruningServiceMethod::spec_route(spec_path_prefix() + "GetBlockIndexerRetainHeight"@) == Some(PruningServiceMethod::GetBlockIndexerRetainHeight),
{
    PruningServiceMethod::lemma_route_path(PruningServiceMethod::SetBlockRetainHeight);
    PruningServiceMethod::lemma_route_path(PruningServiceMethod::GetBlockRetainHeight);
    PruningServiceMethod::lemma_route_path(PruningServiceMethod::SetBlockResultsRetainHeight);
    PruningServiceMethod::lemma_route_path(PruningServiceMethod::GetBlockResultsRetainHeight);
    PruningServiceMethod::lemma_route_path(PruningServiceMethod::SetTxIndexerRetainHeight);
    PruningServiceMethod::lemma_route_path(PruningServiceMethod::GetTxIndexerRetainHeight);
    PruningServiceMethod::lemma_route_path(PruningServiceMethod::SetBlockIndexerRetainHeight);
    PruningServiceMethod::lemma_route_path(PruningServiceMethod::GetBlockIndexerRetainHeight);
}

} // verus!
