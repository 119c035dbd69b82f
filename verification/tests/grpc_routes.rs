use tendermint_proto::grpc::{unimplemented_headers, unimplemented_http_status};
use tendermint_proto::tendermint::privval::priv_validator_api_server::{
    self as privval_server, PrivValidatorApiMethod,
};
use tendermint_proto::tendermint::rpc::grpc::broadcast_api_server::{
    self as broadcast_server, BroadcastApiMethod,
};
use tendermint_proto::v0_34::abci::abci_application_server::AbciApplicationMethod as AbciV034;
use tendermint_proto::v1_0::abci::abci_application_server::AbciApplicationMethod as AbciV1;
use tendermint_proto::v1_0::services::block::block_service_server::BlockServiceMethod;
use tendermint_proto::v1_0::services::block_results::block_results_service_server::BlockResultsServiceMethod;
use tendermint_proto::v1_0::services::pruning::pruning_service_server::{
    self as pruning_server, PruningServiceMethod,
};

#[test]
fn broadcast_api_routes() {
    assert_eq!(broadcast_server::service_name(), "tendermint.rpc.grpc.BroadcastAPI");
    assert_eq!(
        BroadcastApiMethod::route("/tendermint.rpc.grpc.BroadcastAPI/Ping"),
        Some(BroadcastApiMethod::Ping)
    );
    assert_eq!(
        BroadcastApiMethod::route("/tendermint.rpc.grpc.BroadcastAPI/BroadcastTx"),
        Some(BroadcastApiMethod::BroadcastTx)
    );
    assert_eq!(BroadcastApiMethod::route("/tendermint.rpc.grpc.BroadcastAPI/ping"), None);
    assert_eq!(BroadcastApiMethod::route("/tendermint.rpc.grpc.BroadcastAPI/Ping/"), None);
    assert_eq!(BroadcastApiMethod::BroadcastTx.path(), "/tendermint.rpc.grpc.BroadcastAPI/BroadcastTx");
}

#[test]
fn privval_routes() {
    assert_eq!(privval_server::service_name(), "tendermint.privval.PrivValidatorAPI");
    for m in [
        PrivValidatorApiMethod::GetPubKey,
        PrivValidatorApiMethod::SignVote,
        PrivValidatorApiMethod::SignProposal,
    ] {
        assert_eq!(PrivValidatorApiMethod::route(&m.path()), Some(m));
    }
    assert_eq!(
        PrivValidatorApiMethod::route("/tendermint.privval.PrivValidatorAPI/SignVote"),
        Some(PrivValidatorApiMethod::SignVote)
    );
    assert_eq!(PrivValidatorApiMethod::route(""), None);
    assert_eq!(PrivValidatorApiMethod::route("/tendermint.privval.PrivValidatorAPI/"), None);
    assert_eq!(PrivValidatorApiMethod::route("/tendermint.privval.PrivValidatorAPI"), None);
    assert_eq!(PrivValidatorApiMethod::from_name("SignProposal"), Some(PrivValidatorApiMethod::SignProposal));
    assert_eq!(PrivValidatorApiMethod::GetPubKey.name(), "GetPubKey");
}

#[test]
fn abci_routes() {
    assert_eq!(AbciV034::route("/tendermint.abci.ABCIApplication/SetOption"), Some(AbciV034::SetOption));
    assert_eq!(
        AbciV034::route("/tendermint.abci.ABCIApplication/ApplySnapshotChunk"),
        Some(AbciV034::ApplySnapshotChunk)
    );
    assert_eq!(AbciV034::route("/tendermint.abci.ABCIApplication/PrepareProposal"), None);
    assert_eq!(
        AbciV1::route("/cometbft.abci.v1beta2.ABCIApplication/PrepareProposal"),
        Some(AbciV1::PrepareProposal)
    );
    assert_eq!(AbciV1::route("/cometbft.abci.v1beta2.ABCIApplication/SetOption"), None);
    assert_eq!(AbciV1::route("/tendermint.abci.ABCIApplication/Echo"), None);
    assert_eq!(AbciV1::Echo.path(), "/cometbft.abci.v1beta2.ABCIApplication/Echo");
}

#[test]
fn service_routes() {
    assert_eq!(
        BlockServiceMethod::route("/cometbft.services.block.v1beta1.BlockService/GetLatestHeight"),
        Some(BlockServiceMethod::GetLatestHeight)
    );
    assert_eq!(
        BlockResultsServiceMethod::route(
            "/cometbft.services.block_results.v1beta1.BlockResultsService/GetBlockResults"
        ),
        Some(BlockResultsServiceMethod::GetBlockResults)
    );
    assert_eq!(pruning_server::service_name(), "cometbft.services.pruning.v1beta1.PruningService");
    assert_eq!(
        PruningServiceMethod::route(
            "/cometbft.services.pruning.v1beta1.PruningService/GetBlockIndexerRetainHeight"
        ),
        Some(PruningServiceMethod::GetBlockIndexerRetainHeight)
    );
    assert_eq!(
        PruningServiceMethod::route("/cometbft.services.pruning.v1beta1.PruningService/GetBlockIndexer"),
        None
    );
}

#[test]
fn unimplemented_reply() {
    assert_eq!(unimplemented_http_status(), 200);
    assert_eq!(
        unimplemented_headers(),
        [("grpc-status", "12"), ("content-type", "application/grpc")]
    );
}
