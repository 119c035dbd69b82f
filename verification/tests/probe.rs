use std::path::PathBuf;
use std::time::Duration;

use tendermint_proto::decimal::IntErrorKind;
use tendermint_proto::probe::error::Error;
use tendermint_proto::probe::plan::{
    height_not_reached, height_reached, new_block_query, response_to_save, PlanBuilderWithPaths,
    PlannedRequest,
};
use tendermint_proto::probe::quick::quick_probe_plan;
use tendermint_proto::probe::request::{request_wrapper, Request};
use tendermint_proto::probe::utils::{encode_kvpair, hex_string};

fn uuid_shape(id: &str) -> bool {
    id.len() == 36
        && id.chars().enumerate().all(|(i, c)| {
            if i == 8 || i == 13 || i == 18 || i == 23 {
                c == '-'
            } else {
                c.is_ascii_hexdigit() && !c.is_ascii_uppercase()
            }
        })
}

#[test]
fn request_wrapper_members() {
    let q = Request::with_id("abci_query", vec![("data".to_string(), "00ff".to_string())], "id-1".to_string());
    let w = q.wrapper();
    assert_eq!(w.jsonrpc, "2.0");
    assert_eq!(w.id, "id-1");
    assert_eq!(w.method, "abci_query");
    assert_eq!(w.params, vec![("data".to_string(), "00ff".to_string())]);
    let w = request_wrapper("health", vec![]).unwrap();
    assert_eq!(w.method, "health");
    assert!(uuid_shape(&w.id));
    let q = Request::new("health", vec![]).unwrap();
    assert!(uuid_shape(&q.wrapper().id));
    assert_eq!(q.method(), "health");
}

#[test]
fn planned_request_fields() {
    let q = Request::with_id("block", vec![], "x".to_string());
    let p = PlannedRequest::from(q);
    assert_eq!(p.name(), "block");
    assert_eq!(p.min_height(), None);
    assert_eq!(p.file_name(), "block.json");
    assert_eq!(p.wait_before(Duration::from_millis(250)), Duration::from_millis(250));
    let p = PlannedRequest::new("block_at_height_1", Request::with_id("block", vec![], "y".to_string()))
        .with_min_height(7);
    assert_eq!(p.name(), "block_at_height_1");
    assert_eq!(p.request().method, "block");
    assert_eq!(p.min_height(), Some(7));
    assert_eq!(p.file_name(), "block_at_height_1.json");
}

#[test]
fn execution_decisions() {
    assert_eq!(response_to_save(Ok("{}".to_string())).unwrap(), "{}");
    assert_eq!(
        response_to_save(Err(Error::Failed("block".to_string(), "{\"error\":1}".to_string()))).unwrap(),
        "{\"error\":1}"
    );
    assert!(matches!(
        response_to_save(Err(Error::Timeout("t".to_string()))),
        Err(Error::Timeout(_))
    ));
    assert_eq!(new_block_query(), "tm.event = 'NewBlock'");
    assert_eq!(height_reached("10", 10), Ok(true));
    assert_eq!(height_reached("9", 10), Ok(false));
    assert_eq!(height_reached("18446744073709551616", 10), Err(IntErrorKind::PosOverflow));
    assert_eq!(height_reached("1a", 1), Err(IntErrorKind::InvalidDigit));
    assert_eq!(
        height_not_reached(42).message(),
        "an internal error occurred: subscription terminated before we could reach target height of 42"
    );
}

#[test]
fn quick_probe_requests_in_order() {
    let builder = PlanBuilderWithPaths::from_paths(
        PathBuf::from("out/requests"),
        PathBuf::from("out/responses"),
        Duration::from_secs(1),
    );
    let plan = quick_probe_plan(builder).unwrap();
    let (req_path, resp_path, wait, requests) = plan.into_parts();
    assert_eq!(req_path, PathBuf::from("out/requests"));
    assert_eq!(resp_path, PathBuf::from("out/responses"));
    assert_eq!(wait, Duration::from_secs(1));
    let names: Vec<&str> = requests.iter().map(|p| p.name()).collect();
    assert_eq!(
        names,
        vec![
            "health",
            "abci_info",
            "abci_query_non_existent_key",
            "broadcast_tx_async",
            "broadcast_tx_sync",
            "broadcast_tx_commit",
            "abci_query_existing_key",
            "broadcast_tx_commit_existing_key",
            "block_at_height_0",
            "block_at_height_1",
            "block_at_latest_height",
            "block_results_at_height_1",
            "block_results_at_height_10",
        ]
    );
    assert_eq!(requests[2].request().method, "abci_query");
    assert_eq!(
        requests[2].request().params,
        vec![("data".to_string(), hex_string("non-existent-key"))]
    );
    assert_eq!(
        requests[3].request().params,
        vec![("tx".to_string(), encode_kvpair("test-async", "async"))]
    );
    assert_eq!(requests[7].request().method, "broadcast_tx_commit");
    assert_eq!(requests[10].request().params, vec![]);
    assert_eq!(requests[12].min_height(), Some(10));
    assert_eq!(requests[11].min_height(), None);
    for p in &requests {
        assert!(uuid_shape(&p.request().wrapper().id));
    }
}
