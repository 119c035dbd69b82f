//! What the gRPC servers answer to a request for a path that no method of
//! their service serves.

use vstd::prelude::*;

verus! {

/// The HTTP status of the answer: 200, as for every gRPC answer.
pub fn unimplemented_http_status() -> (r: u16)
    ensures
        r == 200,
{
    200
}

/// The headers of the answer: the gRPC status 12 (unimplemented), and the
/// gRPC content type.
pub fn unimplemented_headers() -> (r: [(&'static str, &'static str); 2])
    ensures
        r[0].0@ == "grpc-status"@,
        r[0].1@ == "12"@,
        r[1].0@ == "content-type"@,
        r[1].1@ == "application/grpc"@,
{
    [("grpc-status", "12"), ("content-type", "application/grpc")]
}

} // verus!
