//! The quick probe: the requests that it makes of a node that runs the
//! kvstore application.

use vstd::prelude::*;
use vstd::utf8::encode_utf8;

use crate::encoding::{ascii_chars, base64_encode_spec, hex_encode_spec};
use crate::probe::plan::{PlanBuilderWithPaths, PlanBuilderWithRequests, PlannedRequest};
use crate::probe::request::{params_view, Request};
use crate::probe::utils::{encode_kvpair, hex_string, is_uuid_v4_text, lower_hex};

verus! {

/// What a planned request is, leaving out its ID: its name, its method, its
/// parameters and its minimum height.
pub open spec fn planned_view(p: PlannedRequest) -> (
    Seq<char>,
    Seq<char>,
    Seq<(Seq<char>, Seq<char>)>,
    Option<u64>,
) {
    (p.spec_name(), p.spec_request().spec_method()@, p.spec_request().spec_params(), p.spec_min_height())
}

/// The Base64 text of a `key=value` pair.
pub open spec fn kvpair_text(key: Seq<char>, value: Seq<char>) -> Seq<char> {
    ascii_chars(base64_encode_spec(encode_utf8(key + "="@ + value)))
}

/// The requests of the quick probe, in order.
pub open spec fn quick_probe_requests() -> Seq<
    (Seq<char>, Seq<char>, Seq<(Seq<char>, Seq<char>)>, Option<u64>),
> {
    seq![
        ("health"@, "health"@, seq![], None),
        ("abci_info"@, "abci_info"@, seq![], None),
        (
            "abci_query_non_existent_key"@,
            "abci_query"@,
            seq![("data"@, lower_hex(encode_utf8("non-existent-key"@)))],
            None,
        ),
        (
            "broadcast_tx_async"@,
            "broadcast_tx_async"@,
            seq![("tx"@, kvpair_text("test-async"@, "async"@))],
            None,
        ),
        (
            "broadcast_tx_sync"@,
            "broadcast_tx_sync"@,
            seq![("tx"@, kvpair_text("test-sync"@, "sync"@))],
            None,
        ),
        (
            "broadcast_tx_commit"@,
            "broadcast_tx_commit"@,
            seq![("tx"@, kvpair_text("test-commit"@, "commit"@))],
            None,
        ),
        (
            "abci_query_existing_key"@,
            "abci_query"@,
            seq![("data"@, lower_hex(encode_utf8("test-commit"@)))],
            None,
        ),
        (
            "broadcast_tx_commit_existing_key"@,
            "broadcast_tx_commit"@,
            seq![("tx"@, kvpair_text("test-commit"@, "commit"@))],
            None,
        ),
        ("block_at_height_0"@, "block"@, seq![("height"@, "0"@)], None),
        ("block_at_height_1"@, "block"@, seq![("height"@, "1"@)], None),
        ("block_at_latest_height"@, "block"@, seq![], None),
        ("block_results_at_height_1"@, "block_results"@, seq![("height"@, "1"@)], None),
        ("block_results_at_height_10"@, "block_results"@, seq![("height"@, "10"@)], Some(10u64)),
    ]
}

/// No parameters.
fn no_params() -> (r: Vec<(String, String)>)
    ensures
        params_view(r@) == Seq::<(Seq<char>, Seq<char>)>::empty(),
{
    let r: Vec<(String, String)> = Vec::new();
    assert(params_view(r@) =~= Seq::<(Seq<char>, Seq<char>)>::empty());
    r
}

/// One parameter.
fn one_param(key: &str, value: String) -> (r: Vec<(String, String)>)
    ensures
        params_view(r@) == seq![(key@, value@)],
{
    let mut r: Vec<(String, String)> = Vec::new();
    r.push((key.to_string(), value));
    assert(params_view(r@) =~= seq![(key@, value@)]);
    r
}

/// A planned request with a fresh ID, named as given; `None` where the
/// random source fails.
fn planned(name: &str, method: &str, params: Vec<(String, String)>) -> (r: Option<PlannedRequest>)
    ensures
        r matches Some(p) ==> {
            &&& planned_view(p) == (name@, method@, params_view(params@), None::<u64>)
            &&& p.spec_wait() is None
            &&& is_uuid_v4_text(p.spec_request().spec_id())
        },
{
    match Request::new(method, params) {
        Some(q) => Some(PlannedRequest::new(name, q)),
        None => None,
    }
}

/// A planned request with a fresh ID, named after its method; `None` where
/// the random source fails.
fn planned_by_method(method: &str, params: Vec<(String, String)>) -> (r: Option<PlannedRequest>)
    ensures
        r matches Some(p) ==> {
            &&& planned_view(p) == (method@, method@, params_view(params@), None::<u64>)
            &&& p.spec_wait() is None
            &&& is_uuid_v4_text(p.spec_request().spec_id())
        },
{
    match Request::new(method, params) {
        Some(q) => Some(PlannedRequest::from(q)),
        None => None,
    }
}

/// The first `n` requests are those of the quick probe, each with a fresh
/// ID and no wait of its own.
spec fn good_prefix(reqs: Seq<PlannedRequest>, n: int) -> bool {
    &&& reqs.len() == n
    &&& forall|i: int| 0 <= i < n ==> {
        &&& planned_view(#[trigger] reqs[i]) == quick_probe_requests()[i]
        &&& reqs[i].spec_wait() is None
        &&& is_uuid_v4_text(reqs[i].spec_request().spec_id())
    }
}

/// Adds the requests of the quick probe to a plan; `None` where the random
/// source fails while making a request ID.
pub fn quick_probe_plan(builder: PlanBuilderWithPaths) -> (r: Option<PlanBuilderWithRequests>)
    ensures
        r matches Some(b) ==> {
            &&& b.spec_requests_path() == builder.spec_requests_path()
            &&& b.spec_responses_path() == builder.spec_responses_path()
            &&& b.spec_request_wait() == builder.spec_request_wait()
            &&& b.spec_requests().len() == quick_probe_requests().len()
            &&& forall|i: int| 0 <= i < b.spec_requests().len() ==> {
                &&& planned_view(#[trigger] b.spec_requests()[i]) == quick_probe_requests()[i]
                &&& b.spec_requests()[i].spec_wait() is None
                &&& is_uuid_v4_text(b.spec_requests()[i].spec_request().spec_id())
            }
        },
{
    let p = match planned_by_method("health", no_params()) {
        Some(p) => p,
        None => return None,
    };
    let b = builder.and_then(p);
    assert(good_prefix(b.spec_requests(), 1));
    let p = match planned_by_method("abci_info", no_params()) {
        Some(p) => p,
        None => return None,
    };
    let b = b.and_then(p);
    assert(good_prefix(b.spec_requests(), 2));
    let p = match planned("abci_query_non_existent_key", "abci_query", one_param("data", hex_string("non-existent-key"))) {
        Some(p) => p,
        None => return None,
    };
    let b = b.and_then(p);
    assert(good_prefix(b.spec_requests(), 3));
    let p = match planned_by_method("broadcast_tx_async", one_param("tx", encode_kvpair("test-async", "async"))) {
        Some(p) => p,
        None => return None,
    };
    let b = b.and_then(p);
    assert(good_prefix(b.spec_requests(), 4));
    let p = match planned_by_method("broadcast_tx_sync", one_param("tx", encode_kvpair("test-sync", "sync"))) {
        Some(p) => p,
        None => return None,
    };
    let b = b.and_then(p);
    assert(good_prefix(b.spec_requests(), 5));
    let p = match planned_by_method("broadcast_tx_commit", one_param("tx", encode_kvpair("test-commit", "commit"))) {
        Some(p) => p,
        None => return None,
    };
    let b = b.and_then(p);
    assert(good_prefix(b.spec_requests(), 6));
    let p = match planned("abci_query_existing_key", "abci_query", one_param("data", hex_string("test-commit"))) {
        Some(p) => p,
        None => return None,
    };
    let b = b.and_then(p);
    assert(good_prefix(b.spec_requests(), 7));
    // Triggers an error from the ABCI app.
    let p = match planned("broadcast_tx_commit_existing_key", "broadcast_tx_commit", one_param("tx", encode_kvpair("test-commit", "commit"))) {
        Some(p) => p,
        None => return None,
    };
    let b = b.and_then(p);
    assert(good_prefix(b.spec_requests(), 8));
    // Should give us an invalid height error.
    let p = match planned("block_at_height_0", "block", one_param("height", "0".to_string())) {
        Some(p) => p,
        None => return None,
    };
    let b = b.and_then(p);
    assert(good_prefix(b.spec_requests(), 9));
    let p = match planned("block_at_height_1", "block", one_param("height", "1".to_string())) {
        Some(p) => p,
        None => return None,
    };
    let b = b.and_then(p);
    assert(good_prefix(b.spec_requests(), 10));
    let p = match planned("block_at_latest_height", "block", no_params()) {
        Some(p) => p,
        None => return None,
    };
    let b = b.and_then(p);
    assert(good_prefix(b.spec_requests(), 11));
    let p = match planned("block_results_at_height_1", "block_results", one_param("height", "1".to_string())) {
        Some(p) => p,
        None => return None,
    };
    let b = b.and_then(p);
    assert(good_prefix(b.spec_requests(), 12));
    let p = match planned("block_results_at_height_10", "block_results", one_param("height", "10".to_string())) {
        Some(p) => p,
        None => return None,
    };
    let p = p.with_min_height(10);
    let b = b.and_then(p);
    assert(good_prefix(b.spec_requests(), 13));
    Some(b)
}

/// The quick probe asks, in this order: for the node's health and the
/// application's info; for a key that the kvstore does not hold; to
/// broadcast `key=value` transactions asynchronously, synchronously and with
/// a commit; for the committed key, and to commit it again (which the
/// application refuses); for the blocks at heights 0 (which the node
/// refuses), 1 and the latest; and for the block results at heights 1 and
/// 10, the latter once the chain has reached height 10.
pub proof fn lemma_quick_probe_requests()
    ensures
        quick_probe_requests().len() == 13,
        quick_probe_requests()[0].0 == "health"@,
        quick_probe_requests()[0].1 == "health"@,
        quick_probe_requests()[0].2.len() == 0,
        quick_probe_requests()[0].3 is None,
        quick_probe_requests()[1].0 == "abci_info"@,
        quick_probe_requests()[1].1 == "abci_info"@,
        quick_probe_requests()[1].2.len() == 0,
        quick_probe_requests()[1].3 is None,
        quick_probe_requests()[2].0 == "abci_query_non_existent_key"@,
        quick_probe_requests()[2].1 == "abci_query"@,
        quick_probe_requests()[2].2 == seq![("data"@, ascii_chars(hex_encode_spec(encode_utf8("non-existent-key"@), false)))],
        quick_probe_requests()[2].3 is None,
        quick_probe_requests()[3].0 == "broadcast_tx_async"@,
        quick_probe_requests()[3].1 == "broadcast_tx_async"@,
        quick_probe_requests()[3].2 == seq![("tx"@, ascii_chars(base64_encode_spec(encode_utf8("test-async"@ + "="@ + "async"@))))],
        quick_probe_requests()[3].3 is None,
        quick_probe_requests()[4].0 == "broadcast_tx_sync"@,
        quick_probe_requests()[4].1 == "broadcast_tx_sync"@,
        quick_probe_requests()[4].2 == seq![("tx"@, ascii_chars(base64_encode_spec(encode_utf8("test-sync"@ + "="@ + "sync"@))))],
        quick_probe_requests()[4].3 is None,
        quick_probe_requests()[5].0 == "broadcast_tx_commit"@,
        quick_probe_requests()[5].1 == "broadcast_tx_commit"@,
        quick_probe_requests()[5].2 == seq![("tx"@, ascii_chars(base64_encode_spec(encode_utf8("test-commit"@ + "="@ + "commit"@))))],
        quick_probe_requests()[5].3 is None,
        quick_probe_requests()[6].0 == "abci_query_existing_key"@,
        quick_probe_requests()[6].1 == "abci_query"@,
        quick_probe_requests()[6].2 == seq![("data"@, ascii_chars(hex_encode_spec(encode_utf8("test-commit"@), false)))],
        quick_probe_requests()[6].3 is None,
        quick_probe_requests()[7].0 == "broadcast_tx_commit_existing_key"@,
        quick_probe_requests()[7].1 == "broadcast_tx_commit"@,
        quick_probe_requests()[7].2 == seq![("tx"@, ascii_chars(base64_encode_spec(encode_utf8("test-commit"@ + "="@ + "commit"@))))],
        quick_probe_requests()[7].3 is None,
        quick_probe_requests()[8].0 == "block_at_height_0"@,
        quick_probe_requests()[8].1 == "block"@,
        quick_probe_requests()[8].2 == seq![("height"@, "0"@)],
        quick_probe_requests()[8].3 is None,
        quick_probe_requests()[9].0 == "block_at_height_1"@,
        quick_probe_requests()[9].1 == "block"@,
        quick_probe_requests()[9].2 == seq![("height"@, "1"@)],
        quick_probe_requests()[9].3 is None,
        quick_probe_requests()[10].0 == "block_at_latest_height"@,
        quick_probe_requests()[10].1 == "block"@,
        quick_probe_requests()[10].2.len() == 0,
        quick_probe_requests()[10].3 is None,
        quick_probe_requests()[11].0 == "block_results_at_height_1"@,
        quick_probe_requests()[11].1 == "block_results"@,
        quick_probe_requests()[11].2 == seq![("height"@, "1"@)],
        quick_probe_requests()[11].3 is None,
        quick_probe_requests()[12].0 == "block_results_at_height_10"@,
        quick_probe_requests()[12].1 == "block_results"@,
        quick_probe_requests()[12].2 == seq![("height"@, "10"@)],
        quick_probe_requests()[12].3 == Some(10u64),
{
}

} // verus!
