//! Coordination of JSON-RPC requests: what a plan holds and the decisions
//! taken while it runs.

use std::path::PathBuf;
use std::time::Duration;

use vstd::prelude::*;
use vstd::string::StringExecFns;

use vstd::string::StringSliceAdditionalSpecFns;

use crate::decimal::{dec_chars, parse_integer, parse_unsigned, push_dec, IntErrorKind};
use crate::probe::error::Error;
use crate::probe::request::Request;
use crate::text::string_from_chars;

verus! {

/// `std::path::PathBuf`: a path that a plan carries through to the code that
/// writes files.
#[verifier::external_type_specification]
#[verifier::external_body]
pub struct ExPathBuf(std::path::PathBuf);

/// A request with additional information attached to it pertaining to its
/// execution within its plan.
#[derive(Debug)]
pub struct PlannedRequest {
    // What do we call this planned request?
    name: String,
    // The request to be executed.
    request: Request,
    // The minimum height at which this request can be executed.
    min_height: Option<u64>,
    // Custom wait period before executing this request.
    wait: Option<Duration>,
}

impl PlannedRequest {
    /// What the planned request is called.
    pub closed spec fn spec_name(&self) -> Seq<char> {
        self.name@
    }

    /// The request to be executed.
    pub closed spec fn spec_request(&self) -> Request {
        self.request
    }

    /// The minimum height at which the request can be executed.
    pub closed spec fn spec_min_height(&self) -> Option<u64> {
        self.min_height
    }

    /// The custom wait period before executing the request.
    pub closed spec fn spec_wait(&self) -> Option<Duration> {
        self.wait
    }

    /// A planned request with the given name, no minimum height and the
    /// plan's wait period.
    pub fn new(name: &str, request: Request) -> (r: Self)
        ensures
            r.spec_name() == name@,
            r.spec_request() == request,
            r.spec_min_height() is None,
            r.spec_wait() is None,
    {
        PlannedRequest { request, name: name.to_owned(), min_height: None, wait: None }
    }

    /// The same planned request, to be executed no earlier than at height `h`.
    pub fn with_min_height(self, h: u64) -> (r: Self)
        ensures
            r.spec_name() == self.spec_name(),
            r.spec_request() == self.spec_request(),
            r.spec_min_height() == Some(h),
            r.spec_wait() == self.spec_wait(),
    {
        let mut s = self;
        s.min_height = Some(h);
        s
    }

    /// What the planned request is called.
    pub fn name(&self) -> (r: &str)
        ensures
            r@ == self.spec_name(),
    {
        self.name.as_str()
    }

    /// The request to be executed.
    pub fn request(&self) -> (r: &Request)
        ensures
            *r == self.spec_request(),
    {
        &self.request
    }

    /// The minimum height at which the request can be executed.
    pub fn min_height(&self) -> (r: Option<u64>)
        ensures
            r == self.spec_min_height(),
    {
        self.min_height
    }

    /// How long to wait before executing the request: its own wait period,
    /// else the plan's.
    pub fn wait_before(&self, default_wait: Duration) -> (r: Duration)
        ensures
            r == (match self.spec_wait() {
                Some(w) => w,
                None => default_wait,
            }),
    {
        match self.wait {
            Some(w) => w,
            None => default_wait,
        }
    }

    /// The name of the file that holds the request, and of the one that holds
    /// its response: the planned request's name with the extension `.json`.
    pub fn file_name(&self) -> (r: String)
        ensures
            r@ == self.spec_name() + ".json"@,
    {
        let mut f = self.name.clone();
        f.append(".json");
        f
    }
}

impl From<Request> for PlannedRequest {
    fn from(request: Request) -> (r: Self)
        ensures
            r.spec_name() == request.spec_method()@,
            r.spec_request() == request,
            r.spec_min_height() is None,
            r.spec_wait() is None,
    {
        let name = request.method().clone();
        PlannedRequest { request, name, min_height: None, wait: None }
    }
}

impl vstd::std_specs::convert::FromSpecImpl<Request> for PlannedRequest {
    open spec fn obeys_from_spec() -> bool {
        true
    }

    closed spec fn from_spec(v: Request) -> Self {
        PlannedRequest { request: v, name: v.spec_method(), min_height: None, wait: None }
    }
}

/// A plan before its first request: where the requests and the responses
/// are written, and how long to wait before each request.
pub struct PlanBuilderWithPaths {
    requests_path: PathBuf,
    responses_path: PathBuf,
    request_wait: Duration,
}

/// A plan with its requests, in the order in which they run.
pub struct PlanBuilderWithRequests {
    requests_path: PathBuf,
    responses_path: PathBuf,
    request_wait: Duration,
    requests: Vec<PlannedRequest>,
}

impl PlanBuilderWithPaths {
    /// Where the requests are written.
    pub closed spec fn spec_requests_path(&self) -> PathBuf {
        self.requests_path
    }

    /// Where the responses are written.
    pub closed spec fn spec_responses_path(&self) -> PathBuf {
        self.responses_path
    }

    /// How long to wait before a request that has no wait of its own.
    pub closed spec fn spec_request_wait(&self) -> Duration {
        self.request_wait
    }

    /// A plan that writes to the given directories, which exist.
    pub fn from_paths(requests_path: PathBuf, responses_path: PathBuf, request_wait: Duration) -> (r: Self)
        ensures
            r.spec_requests_path() == requests_path,
            r.spec_responses_path() == responses_path,
            r.spec_request_wait() == request_wait,
    {
        PlanBuilderWithPaths { requests_path, responses_path, request_wait }
    }

    /// The plan with its first request.
    pub fn and_then(self, request: PlannedRequest) -> (r: PlanBuilderWithRequests)
        ensures
            r.spec_requests_path() == self.spec_requests_path(),
            r.spec_responses_path() == self.spec_responses_path(),
            r.spec_request_wait() == self.spec_request_wait(),
            r.spec_requests() == seq![request],
    {
        let mut requests: Vec<PlannedRequest> = Vec::new();
        requests.push(request);
        PlanBuilderWithRequests {
            requests_path: self.requests_path,
            responses_path: self.responses_path,
            request_wait: self.request_wait,
            requests,
        }
    }
}

impl PlanBuilderWithRequests {
    /// Where the requests are written.
    pub closed spec fn spec_requests_path(&self) -> PathBuf {
        self.requests_path
    }

    /// Where the responses are written.
    pub closed spec fn spec_responses_path(&self) -> PathBuf {
        self.responses_path
    }

    /// How long to wait before a request that has no wait of its own.
    pub closed spec fn spec_request_wait(&self) -> Duration {
        self.request_wait
    }

    /// The requests, in the order in which they run.
    pub closed spec fn spec_requests(&self) -> Seq<PlannedRequest> {
        self.requests@
    }

    /// The plan with one more request, run after the others.
    pub fn and_then(self, request: PlannedRequest) -> (r: PlanBuilderWithRequests)
        ensures
            r.spec_requests_path() == self.spec_requests_path(),
            r.spec_responses_path() == self.spec_responses_path(),
            r.spec_request_wait() == self.spec_request_wait(),
            r.spec_requests() == self.spec_requests().push(request),
    {
        let mut s = self;
        s.requests.push(request);
        s
    }

    /// The parts of the plan: where requests and responses are written, the
    /// default wait, and the requests.
    pub fn into_parts(self) -> (r: (PathBuf, PathBuf, Duration, Vec<PlannedRequest>))
        ensures
            r.0 == self.spec_requests_path(),
            r.1 == self.spec_responses_path(),
            r.2 == self.spec_request_wait(),
            r.3@ == self.spec_requests(),
    {
        (self.requests_path, self.responses_path, self.request_wait, self.requests)
    }
}

/// What is saved as the response to a request: the response itself, or the
/// response that came with a failed request; any other error ends the plan.
pub fn response_to_save(result: Result<String, Error>) -> (r: Result<String, Error>)
    ensures
        match result {
            Ok(v) => r == Ok::<String, Error>(v),
            Err(Error::Failed(_, v)) => r == Ok::<String, Error>(v),
            Err(e) => r == Err::<String, Error>(e),
        },
{
    match result {
        Ok(v) => Ok(v),
        Err(Error::Failed(_, v)) => Ok(v),
        Err(e) => Err(e),
    }
}

/// The subscription query for new blocks, through which a request waits for
/// its minimum height.
pub fn new_block_query() -> (r: &'static str)
    ensures
        r@ == "tm.event = 'NewBlock'"@,
{
    "tm.event = 'NewBlock'"
}

/// Whether a new block, at the height written in `height`, reaches the
/// target height; the error where `height` is no `u64`.
pub fn height_reached(height: &str, target: u64) -> (r: Result<bool, IntErrorKind>)
    ensures
        match parse_integer(height.spec_bytes(), false, u64::MAX as int) {
            Ok(h) => r == Ok::<bool, IntErrorKind>(h >= target),
            Err(e) => r == Err::<bool, IntErrorKind>(e),
        },
{
    let b = height.as_bytes();
    assert(b@.subrange(0, b@.len() as int) =~= b@);
    match parse_unsigned(b, 0, b.len(), 0xffff_ffff_ffff_ffff) {
        Ok(h) => Ok(h >= target),
        Err(e) => Err(e),
    }
}

/// The error when the subscription ends before the target height `h`.
pub fn height_not_reached(h: u64) -> (r: Error)
    ensures
        r == Error::InternalError(r->InternalError_0),
        r->InternalError_0@ == "subscription terminated before we could reach target height of "@
            + dec_chars(h as nat),
{
    let mut digits: Vec<char> = Vec::new();
    push_dec(&mut digits, h as u128);
    let digits = string_from_chars(digits);
    let mut m = "subscription terminated before we could reach target height of ".to_owned();
    m.append(digits.as_str());
    Error::InternalError(m)
}

} // verus!
