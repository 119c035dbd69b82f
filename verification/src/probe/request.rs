//! JSON-RPC requests to a Tendermint node.

use vstd::prelude::*;

use crate::probe::utils::{is_uuid_v4_text, uuid_v4};

verus! {

/// The parameters of a request: a JSON object whose values are strings, as
/// its (key, value) pairs in order.
pub open spec fn params_view(p: Seq<(String, String)>) -> Seq<(Seq<char>, Seq<char>)> {
    p.map_values(|kv: (String, String)| (kv.0@, kv.1@))
}

/// A copy of request parameters.
pub fn clone_params(p: &Vec<(String, String)>) -> (r: Vec<(String, String)>)
    ensures
        params_view(r@) == params_view(p@),
{
    let mut r: Vec<(String, String)> = Vec::new();
    let mut i: usize = 0;
    while i < p.len()
        invariant
            i <= p@.len(),
            r@.len() == i,
            forall|j: int| 0 <= j < i ==> #[trigger] r@[j].0@ == p@[j].0@ && r@[j].1@ == p@[j].1@,
        decreases p@.len() - i,
    {
        let k = p[i].0.clone();
        let v = p[i].1.clone();
        r.push((k, v));
        i = i + 1;
    }
    assert(params_view(r@) =~= params_view(p@));
    r
}

/// A JSON-RPC request.
#[derive(Debug)]
pub struct Request {
    /// The JSON-RPC request method.
    pub method: String,
    /// The parameters for the specific method.
    pub params: Vec<(String, String)>,
    // The ID of this request (auto-generated).
    id: String,
}

/// The JSON-RPC envelope of a request: the object with the members
/// `jsonrpc`, `id`, `method` and `params`.
#[derive(Debug)]
pub struct RequestWrapper {
    /// The protocol version, `2.0`.
    pub jsonrpc: String,
    /// The ID of the request.
    pub id: String,
    /// The method.
    pub method: String,
    /// The parameters.
    pub params: Vec<(String, String)>,
}

impl Request {
    /// The method of the request.
    pub closed spec fn spec_method(&self) -> String {
        self.method
    }

    /// The parameters of the request.
    pub closed spec fn spec_params(&self) -> Seq<(Seq<char>, Seq<char>)> {
        params_view(self.params@)
    }

    /// The ID of the request.
    pub closed spec fn spec_id(&self) -> Seq<char> {
        self.id@
    }

    /// The method of the request.
    pub fn method(&self) -> (r: &String)
        ensures
            *r == self.spec_method(),
    {
        &self.method
    }

    /// A request with the given ID.
    pub fn with_id(method: &str, params: Vec<(String, String)>, id: String) -> (r: Request)
        ensures
            r.spec_method()@ == method@,
            r.spec_params() == params_view(params@),
            r.spec_id() == id@,
    {
        Request { method: method.to_string(), params, id }
    }

    /// A request with a fresh random ID; `None` where the random source
    /// fails.
    pub fn new(method: &str, params: Vec<(String, String)>) -> (r: Option<Request>)
        ensures
            r matches Some(q) ==> {
                &&& q.spec_method()@ == method@
                &&& q.spec_params() == params_view(params@)
                &&& is_uuid_v4_text(q.spec_id())
            },
    {
        match uuid_v4() {
            Some(id) => Some(Request::with_id(method, params, id)),
            None => None,
        }
    }

    /// The JSON-RPC envelope of the request.
    pub fn wrapper(&self) -> (r: RequestWrapper)
        ensures
            r.jsonrpc@ == "2.0"@,
            r.id@ == self.spec_id(),
            r.method == self.spec_method(),
            params_view(r.params@) == self.spec_params(),
    {
        RequestWrapper {
            jsonrpc: "2.0".to_string(),
            id: self.id.clone(),
            method: self.method.clone(),
            params: clone_params(&self.params),
        }
    }
}

/// The JSON-RPC envelope of a request with a fresh random ID; `None` where
/// the random source fails.
pub fn request_wrapper(method: &str, params: Vec<(String, String)>) -> (r: Option<RequestWrapper>)
    ensures
        r matches Some(w) ==> {
            &&& w.jsonrpc@ == "2.0"@
            &&& is_uuid_v4_text(w.id@)
            &&& w.method@ == method@
            &&& w.params == params
        },
{
    match uuid_v4() {
        Some(id) => Some(RequestWrapper { jsonrpc: "2.0".to_string(), id, method: method.to_string(), params }),
        None => None,
    }
}

} // verus!
