//! Routing of requests to the `cometbft.abci.v1beta2.ABCIApplication` gRPC service: which method
//! serves a request path.

use vstd::prelude::*;
use vstd::string::StringExecFns;

use crate::text::str_eq;

verus! {

/// The methods of the `cometbft.abci.v1beta2.ABCIApplication` service.
#[derive(Clone, Copy, Debug, PartialEq, Eq, Structural, Hash)]
pub enum AbciApplicationMethod {
    /// `Echo`.
    Echo,
    /// `Flush`.
    Flush,
    /// `Info`.
    Info,
    /// `DeliverTx`.
    DeliverTx,
    /// `CheckTx`.
    CheckTx,
    /// `Query`.
    Query,
    /// `Commit`.
    Commit,
    /// `InitChain`.
    InitChain,
    /// `BeginBlock`.
    BeginBlock,
    /// `EndBlock`.
    EndBlock,
    /// `ListSnapshots`.
    ListSnapshots,
    /// `OfferSnapshot`.
    OfferSnapshot,
    /// `LoadSnapshotChunk`.
    LoadSnapshotChunk,
    /// `ApplySnapshotChunk`.
    ApplySnapshotChunk,
    /// `PrepareProposal`.
    PrepareProposal,
    /// `ProcessProposal`.
    ProcessProposal,
}

/// The name of the service.
pub fn service_name() -> (r: &'static str)
    ensures
        r@ == "cometbft.abci.v1beta2.ABCIApplication"@,
{
    "cometbft.abci.v1beta2.ABCIApplication"
}

/// The start of the request path of every method of the service: the
/// service's name between slashes.
pub open spec fn spec_path_prefix() -> Seq<char> {
    "/"@ + "cometbft.abci.v1beta2.ABCIApplication"@ + "/"@
}

/// The start of the request path of every method of the service.
pub fn path_prefix() -> (r: String)
    ensures
        r@ == spec_path_prefix(),
{
    let mut r = "/".to_owned();
    r.append(service_name());
    r.append("/");
    r
}

impl AbciApplicationMethod {
    /// The name of the method.
    pub open spec fn spec_name(self) -> Seq<char> {
        match self {
            AbciApplicationMethod::Echo => "Echo"@,
            AbciApplicationMethod::Flush => "Flush"@,
            AbciApplicationMethod::Info => "Info"@,
            AbciApplicationMethod::DeliverTx => "DeliverTx"@,
            AbciApplicationMethod::CheckTx => "CheckTx"@,
            AbciApplicationMethod::Query => "Query"@,
            AbciApplicationMethod::Commit => "Commit"@,
            AbciApplicationMethod::InitChain => "InitChain"@,
            AbciApplicationMethod::BeginBlock => "BeginBlock"@,
            AbciApplicationMethod::EndBlock => "EndBlock"@,
            AbciApplicationMethod::ListSnapshots => "ListSnapshots"@,
            AbciApplicationMethod::OfferSnapshot => "OfferSnapshot"@,
            AbciApplicationMethod::LoadSnapshotChunk => "LoadSnapshotChunk"@,
            AbciApplicationMethod::ApplySnapshotChunk => "ApplySnapshotChunk"@,
            AbciApplicationMethod::PrepareProposal => "PrepareProposal"@,
            AbciApplicationMethod::ProcessProposal => "ProcessProposal"@,
        }
    }

    /// The method of the given name, if any.
    pub open spec fn spec_from_name(name: Seq<char>) -> Option<Self> {
        if name == "Echo"@ {
            Some(AbciApplicationMethod::Echo)
        } else if name == "Flush"@ {
            Some(AbciApplicationMethod::Flush)
        } else if name == "Info"@ {
            Some(AbciApplicationMethod::Info)
        } else if name == "DeliverTx"@ {
            Some(AbciApplicationMethod::DeliverTx)
        } else if name == "CheckTx"@ {
            Some(AbciApplicationMethod::CheckTx)
        } else if name == "Query"@ {
            Some(AbciApplicationMethod::Query)
        } else if name == "Commit"@ {
            Some(AbciApplicationMethod::Commit)
        } else if name == "InitChain"@ {
            Some(AbciApplicationMethod::InitChain)
        } else if name == "BeginBlock"@ {
            Some(AbciApplicationMethod::BeginBlock)
        } else if name == "EndBlock"@ {
            Some(AbciApplicationMethod::EndBlock)
        } else if name == "ListSnapshots"@ {
            Some(AbciApplicationMethod::ListSnapshots)
        } else if name == "OfferSnapshot"@ {
            Some(AbciApplicationMethod::OfferSnapshot)
        } else if name == "LoadSnapshotChunk"@ {
            Some(AbciApplicationMethod::LoadSnapshotChunk)
        } else if name == "ApplySnapshotChunk"@ {
            Some(AbciApplicationMethod::ApplySnapshotChunk)
        } else if name == "PrepareProposal"@ {
            Some(AbciApplicationMethod::PrepareProposal)
        } else if name == "ProcessProposal"@ {
            Some(AbciApplicationMethod::ProcessProposal)
        } else {
            None
        }
    }

    /// The request path of the method.
    pub open spec fn spec_path(self) -> Seq<char> {
        spec_path_prefix() + self.spec_name()
    }

    /// The method that serves a request path, if any: the path is the
    /// service's prefix followed by the name of the method.
    pub open spec fn spec_route(path: Seq<char>) -> Option<Self> {
        let n = spec_path_prefix().len();
        if path.len() >= n && path.subrange(0, n as int) == spec_path_prefix() {
            Self::spec_from_name(path.subrange(n as int, path.len() as int))
        } else {
            None
        }
    }

    /// The name of the method.
    pub fn name(self) -> (r: &'static str)
        ensures
            r@ == self.spec_name(),
    {
        match self {
            AbciApplicationMethod::Echo => "Echo",
            AbciApplicationMethod::Flush => "Flush",
            AbciApplicationMethod::Info => "Info",
            AbciApplicationMethod::DeliverTx => "DeliverTx",
            AbciApplicationMethod::CheckTx => "CheckTx",
            AbciApplicationMethod::Query => "Query",
            AbciApplicationMethod::Commit => "Commit",
            AbciApplicationMethod::InitChain => "InitChain",
            AbciApplicationMethod::BeginBlock => "BeginBlock",
            AbciApplicationMethod::EndBlock => "EndBlock",
            AbciApplicationMethod::ListSnapshots => "ListSnapshots",
            AbciApplicationMethod::OfferSnapshot => "OfferSnapshot",
            AbciApplicationMethod::LoadSnapshotChunk => "LoadSnapshotChunk",
            AbciApplicationMethod::ApplySnapshotChunk => "ApplySnapshotChunk",
            AbciApplicationMethod::PrepareProposal => "PrepareProposal",
            AbciApplicationMethod::ProcessProposal => "ProcessProposal",
        }
    }

    /// The method of the given name, if any.
    pub fn from_name(name: &str) -> (r: Option<Self>)
        ensures
            r == Self::spec_from_name(name@),
    {
        if str_eq(name, "Echo") {
            Some(AbciApplicationMethod::Echo)
        } else if str_eq(name, "Flush") {
            Some(AbciApplicationMethod::Flush)
        } else if str_eq(name, "Info") {
            Some(AbciApplicationMethod::Info)
        } else if str_eq(name, "DeliverTx") {
            Some(AbciApplicationMethod::DeliverTx)
        } else if str_eq(name, "CheckTx") {
            Some(AbciApplicationMethod::CheckTx)
        } else if str_eq(name, "Query") {
            Some(AbciApplicationMethod::Query)
        } else if str_eq(name, "Commit") {
            Some(AbciApplicationMethod::Commit)
        } else if str_eq(name, "InitChain") {
            Some(AbciApplicationMethod::InitChain)
        } else if str_eq(name, "BeginBlock") {
            Some(AbciApplicationMethod::BeginBlock)
        } else if str_eq(name, "EndBlock") {
            Some(AbciApplicationMethod::EndBlock)
        } else if str_eq(name, "ListSnapshots") {
            Some(AbciApplicationMethod::ListSnapshots)
        } else if str_eq(name, "OfferSnapshot") {
            Some(AbciApplicationMethod::OfferSnapshot)
        } else if str_eq(name, "LoadSnapshotChunk") {
            Some(AbciApplicationMethod::LoadSnapshotChunk)
        } else if str_eq(name, "ApplySnapshotChunk") {
            Some(AbciApplicationMethod::ApplySnapshotChunk)
        } else if str_eq(name, "PrepareProposal") {
            Some(AbciApplicationMethod::PrepareProposal)
        } else if str_eq(name, "ProcessProposal") {
            Some(AbciApplicationMethod::ProcessProposal)
        } else {
            None
        }
    }

    /// The request path of the method.
    pub fn path(self) -> (r: String)
        ensures
            r@ == self.spec_path(),
    {
        let mut r = path_prefix();
        r.append(self.name());
        r
    }

    /// The method that serves a request path; `None` for a path that no
    /// method serves, which is answered as unimplemented.
    pub fn route(path: &str) -> (r: Option<Self>)
        ensures
            r == Self::spec_route(path@),
    {
        let prefix = path_prefix();
        let n = prefix.as_str().unicode_len();
        let len = path.unicode_len();
        if len < n {
            return None;
        }
        let head = path.substring_char(0, n);
        if !str_eq(head, prefix.as_str()) {
            return None;
        }
        Self::from_name(path.substring_char(n, len))
    }

    /// The path of a method is routed to that method.
    pub proof fn lemma_route_path(self)
        ensures
            Self::spec_route(self.spec_path()) == Some(self),
    {
        let n = spec_path_prefix().len();
        assert(self.spec_path().subrange(0, n as int) =~= spec_path_prefix());
        assert(self.spec_path().subrange(n as int, self.spec_path().len() as int) =~= self.spec_name());
        reveal_strlit("Echo");
        reveal_strlit("Flush");
        reveal_strlit("Info");
        reveal_strlit("DeliverTx");
        reveal_strlit("CheckTx");
        reveal_strlit("Query");
        reveal_strlit("Commit");
        reveal_strlit("InitChain");
        reveal_strlit("BeginBlock");
        reveal_strlit("EndBlock");
        reveal_strlit("ListSnapshots");
        reveal_strlit("OfferSnapshot");
        reveal_strlit("LoadSnapshotChunk");
        reveal_strlit("ApplySnapshotChunk");
        reveal_strlit("PrepareProposal");
        reveal_strlit("ProcessProposal");
        assert("Echo"@.len() == 4 && "Echo"@[0] == 'E');
        assert("Flush"@.len() == 5 && "Flush"@[0] == 'F');
        assert("Info"@.len() == 4 && "Info"@[0] == 'I');
        assert("DeliverTx"@.len() == 9 && "DeliverTx"@[0] == 'D');
        assert("CheckTx"@.len() == 7);
        assert("Query"@.len() == 5 && "Query"@[0] == 'Q');
        assert("Commit"@.len() == 6);
        assert("InitChain"@.len() == 9 && "InitChain"@[0] == 'I');
        assert("BeginBlock"@.len() == 10);
        assert("EndBlock"@.len() == 8);
        assert("ListSnapshots"@.len() == 13 && "ListSnapshots"@[0] == 'L');
        assert("OfferSnapshot"@.len() == 13 && "OfferSnapshot"@[0] == 'O');
        assert("LoadSnapshotChunk"@.len() == 17);
        assert("ApplySnapshotChunk"@.len() == 18);
        assert("PrepareProposal"@.len() == 15 && "PrepareProposal"@[2] == 'e');
        assert("ProcessProposal"@.len() == 15 && "ProcessProposal"@[2] == 'o');
    }
}

/// Each method of the service is served under the literal name of its RPC
/// in the protobuf definition: the path made of the service's prefix and
/// that name is routed to that method.
pub proof fn lemma_rpc_names()
    ensures
        spec_path_prefix() == "/"@ + "cometbft.abci.v1beta2.ABCIApplication"@ + "/"@,
        AbciApplicationMethod::Echo.spec_name() == "Echo"@,
        AbciApplicationMethod::Flush.spec_name() == "Flush"@,
        AbciApplicationMethod::Info.spec_name() == "Info"@,
        AbciApplicationMethod::DeliverTx.spec_name() == "DeliverTx"@,
        AbciApplicationMethod::CheckTx.spec_name() == "CheckTx"@,
        AbciApplicationMethod::Query.spec_name() == "Query"@,
        AbciApplicationMethod::Commit.spec_name() == "Commit"@,
        AbciApplicationMethod::InitChain.spec_name() == "InitChain"@,
        AbciApplicationMethod::BeginBlock.spec_name() == "BeginBlock"@,
        AbciApplicationMethod::EndBlock.spec_name() == "EndBlock"@,
        AbciApplicationMethod::ListSnapshots.spec_name() == "ListSnapshots"@,
        AbciApplicationMethod::OfferSnapshot.spec_name() == "OfferSnapshot"@,
        AbciApplicationMethod::LoadSnapshotChunk.spec_name() == "LoadSnapshotChunk"@,
        AbciApplicationMethod::ApplySnapshotChunk.spec_name() == "ApplySnapshotChunk"@,
        AbciApplicationMethod::PrepareProposal.spec_name() == "PrepareProposal"@,
        AbciApplicationMethod::ProcessProposal.spec_name() == "ProcessProposal"@,
        AbciApplicationMethod::spec_route(spec_path_prefix() + "Echo"@) == Some(AbciApplicationMethod::Echo),
        AbciApplicationMethod::spec_route(spec_path_prefix() + "Flush"@) == Some(AbciApplicationMethod::Flush),
        AbciApplicationMethod::spec_route(spec_path_prefix() + "Info"@) == Some(AbciApplicationMethod::Info),
        AbciApplicationMethod::spec_route(spec_path_prefix() + "DeliverTx"@) == Some(AbciApplicationMethod::DeliverTx),
        AbciApplicationMethod::spec_route(spec_path_prefix() + "CheckTx"@) == Some(AbciApplicationMethod::CheckTx),
        AbciApplicationMethod::spec_route(spec_path_prefix() + "Query"@) == Some(AbciApplicationMethod::Query),
        AbciApplicationMethod::spec_route(spec_path_prefix() + "Commit"@) == Some(AbciApplicationMethod::Commit),
        AbciApplicationMethod::spec_route(spec_path_prefix() + "InitChain"@) == Some(AbciApplicationMethod::InitChain),
        AbciApplicationMethod::spec_route(spec_path_prefix() + "BeginBlock"@) == Some(AbciApplicationMethod::BeginBlock),
        AbciApplicationMethod::spec_route(spec_path_prefix() + "EndBlock"@) == Some(AbciApplicationMethod::EndBlock),
        AbciApplicationMethod::spec_route(spec_path_prefix() + "ListSnapshots"@) == Some(AbciApplicationMethod::ListSnapshots),
        AbciApplicationMethod::spec_route(spec_path_prefix() + "OfferSnapshot"@) == Some(AbciApplicationMethod::OfferSnapshot),
        AbciApplicationMethod::spec_route(spec_path_prefix() + "LoadSnapshotChunk"@) == Some(AbciApplicationMethod::LoadSnapshotChunk),
        AbciApplicationMethod::spec_route(spec_path_prefix() + "ApplySnapshotChunk"@) == Some(AbciApplicationMethod::ApplySnapshotChunk),
        AbciApplicationMethod::spec_route(spec_path_prefix() + "PrepareProposal"@) == Some(AbciApplicationMethod::PrepareProposal),
        AbciApplicationMethod::spec_route(spec_path_prefix() + "ProcessProposal"@) == Some(AbciApplicationMethod::ProcessProposal),
{
    AbciApplicationMethod::lemma_route_path(AbciApplicationMethod::Echo);
    AbciApplicationMethod::lemma_route_path(AbciApplicationMethod::Flush);
    AbciApplicationMethod::lemma_route_path(AbciApplicationMethod::Info);
    AbciApplicationMethod::lemma_route_path(AbciApplicationMethod::DeliverTx);
    AbciApplicationMethod::lemma_route_path(AbciApplicationMethod::CheckTx);
    AbciApplicationMethod::lemma_route_path(AbciApplicationMethod::Query);
    AbciApplicationMethod::lemma_route_path(AbciApplicationMethod::Commit);
    AbciApplicationMethod::lemma_route_path(AbciApplicationMethod::InitChain);
    AbciApplicationMethod::lemma_route_path(AbciApplicationMethod::BeginBlock);
    AbciApplicationMethod::lemma_route_path(AbciApplicationMethod::EndBlock);
    AbciApplicationMethod::lemma_route_path(AbciApplicationMethod::ListSnapshots);
    AbciApplicationMethod::lemma_route_path(AbciApplicationMethod::OfferSnapshot);
    AbciApplicationMethod::lemma_route_path(AbciApplicationMethod::LoadSnapshotChunk);
    AbciApplicationMethod::lemma_route_path(AbciApplicationMethod::ApplySnapshotChunk);
    AbciApplicationMethod::lemma_route_path(AbciApplicationMethod::PrepareProposal);
    AbciApplicationMethod::lemma_route_path(AbciApplicationMethod::ProcessProposal);
}

} // verus!
