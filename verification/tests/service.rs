use alloy::sol_types::{sol_data, SolType};
use ibc_relay_core::abi::encode_bundle;
use ibc_relay_core::client::ClientTxError;
use ibc_relay_core::height::Height;
use ibc_relay_core::membership::{bundle_membership, membership_request, plan_membership};
use ibc_relay_core::module::{module_named, CosmosToCosmosConfig, CosmosToCosmosRelayerModule};
use ibc_relay_core::path::{Fetched, GatherError, PathError};
use ibc_relay_core::pipeline::{PipelineError, ProverOutput};
use ibc_relay_core::program::{ProofProgram, SelectError};
use ibc_relay_core::relay::RelayError;
use ibc_relay_core::service::{
    decode_tx_ids, info, relay_by_tx, respond, status_code, ErrorKind, Failure,
    RelayByTxRequest, StatusCode, TxHash,
};
use ibc_relay_core::trust::ConsensusState;

#[test]
fn info_passes_the_chain_ids_on() {
    let response = info(Ok("target-1".to_string()), Ok("source-1".to_string())).unwrap();
    assert_eq!(response.target_chain.chain_id, "target-1");
    assert_eq!(response.source_chain.chain_id, "source-1");
    assert_eq!(response.target_chain.ibc_version, "2");
    assert_eq!(response.source_chain.ibc_version, "2");
    assert_eq!(response.target_chain.ibc_contract, "");
    assert_eq!(response.source_chain.ibc_contract, "");
}

#[test]
fn info_reports_an_unreachable_chain() {
    let status = info(Err("target down".to_string()), Ok("s".to_string())).unwrap_err();
    assert_eq!(status.code, StatusCode::Unavailable);
    assert_eq!(status.message, "transport: target down");
    let status = info(Ok("t".to_string()), Err("source down".to_string())).unwrap_err();
    assert_eq!(status.code, StatusCode::Unavailable);
    assert_eq!(status.message, "transport: source down");
    // The target chain is asked first.
    let status = info(Err("target down".to_string()), Err("source down".to_string())).unwrap_err();
    assert_eq!(status.message, "transport: target down");
}

#[test]
fn tx_ids_are_digests() {
    let digest: Vec<u8> = (0u8..32).collect();
    let hashes = decode_tx_ids(&vec![digest.clone(), vec![0xff; 32]]).unwrap();
    let mut expected = [0u8; 32];
    expected.copy_from_slice(&digest);
    assert_eq!(
        hashes,
        vec![TxHash::Sha256(expected), TxHash::Sha256([0xff; 32])]
    );
    assert_eq!(decode_tx_ids(&vec![]).unwrap(), vec![]);
}

#[test]
fn tx_id_without_bytes_is_refused() {
    assert!(matches!(decode_tx_ids(&vec![vec![]]), Err(Failure::InvalidTxId)));
    assert!(matches!(
        decode_tx_ids(&vec![vec![1u8; 32], vec![]]),
        Err(Failure::InvalidTxId)
    ));
    assert!(matches!(
        decode_tx_ids(&vec![vec![], vec![1u8; 32]]),
        Err(Failure::InvalidTxId)
    ));
}

#[test]
fn tx_ids_of_other_lengths_are_refused() {
    for bad in [vec![0u8; 1], vec![0u8; 31], vec![0u8; 33], vec![0u8; 64]] {
        let r = decode_tx_ids(&vec![vec![1u8; 32], bad, vec![2u8; 32]]);
        assert!(matches!(r, Err(Failure::InvalidTxId)));
    }
}

#[test]
fn relay_request_with_bad_tx_id_is_an_invalid_argument() {
    let request = |source: Vec<Vec<u8>>, timeout: Vec<Vec<u8>>| RelayByTxRequest {
        source_tx_ids: source,
        timeout_tx_ids: timeout,
        src_client_id: "a".to_string(),
        dst_client_id: "b".to_string(),
        src_packet_sequences: vec![],
        dst_packet_sequences: vec![],
    };
    let lookup = relay_by_tx(&request(vec![vec![7; 32]], vec![vec![8; 32], vec![9; 32]])).unwrap();
    assert_eq!(lookup.source_txs, vec![TxHash::Sha256([7; 32])]);
    assert_eq!(lookup.timeout_txs, vec![TxHash::Sha256([8; 32]), TxHash::Sha256([9; 32])]);
    let lookup = relay_by_tx(&request(vec![], vec![])).unwrap();
    assert!(lookup.source_txs.is_empty());
    assert!(lookup.timeout_txs.is_empty());
    for (source, timeout) in [
        (vec![vec![]], vec![]),
        (vec![], vec![vec![]]),
        (vec![vec![7u8; 32]], vec![vec![8u8; 32], vec![]]),
        (vec![vec![7u8; 5]], vec![]),
        (vec![], vec![vec![7u8; 5]]),
        (vec![vec![7u8; 32], vec![1u8]], vec![vec![7u8; 32]]),
    ] {
        let status = relay_by_tx(&request(source, timeout)).unwrap_err();
        assert_eq!(status.code, StatusCode::InvalidArgument);
        assert_eq!(status.message, "parse: invalid transaction id");
    }
}

#[test]
fn every_failure_has_its_kind_code_and_message() {
    let cases: Vec<(Failure, ErrorKind, StatusCode, &str)> = vec![
        (
            Failure::Chain("rpc timed out".to_string()),
            ErrorKind::Transport,
            StatusCode::Unavailable,
            "transport: rpc timed out",
        ),
        (
            Failure::InvalidTxId,
            ErrorKind::Parse,
            StatusCode::InvalidArgument,
            "parse: invalid transaction id",
        ),
        (
            Failure::InvalidParameters,
            ErrorKind::Parse,
            StatusCode::InvalidArgument,
            "parse: invalid parameters",
        ),
        (
            Failure::Path(PathError::InvalidPath),
            ErrorKind::Parse,
            StatusCode::InvalidArgument,
            "parse: invalid path",
        ),
        (
            Failure::Path(PathError::InvalidEncoding),
            ErrorKind::Parse,
            StatusCode::InvalidArgument,
            "parse: invalid path encoding",
        ),
        (
            Failure::Select(SelectError::NothingToProve),
            ErrorKind::Domain,
            StatusCode::FailedPrecondition,
            "domain: nothing to prove",
        ),
        (
            Failure::Gather(GatherError::Incomplete),
            ErrorKind::Transport,
            StatusCode::Unavailable,
            "transport: incomplete proof fetch",
        ),
        (
            Failure::Pipeline(PipelineError::ProverUnavailable),
            ErrorKind::Transport,
            StatusCode::Unavailable,
            "transport: prover unavailable",
        ),
        (
            Failure::Pipeline(PipelineError::MalformedOutput),
            ErrorKind::Parse,
            StatusCode::InvalidArgument,
            "parse: malformed proof output",
        ),
        (
            Failure::Pipeline(PipelineError::ProofIntegrityViolation),
            ErrorKind::Integrity,
            StatusCode::DataLoss,
            "integrity: proof integrity violation",
        ),
        (
            Failure::Pipeline(PipelineError::InputMismatch),
            ErrorKind::Domain,
            StatusCode::FailedPrecondition,
            "domain: proof input mismatch",
        ),
        (
            Failure::Relay(RelayError::UnknownSequence),
            ErrorKind::Domain,
            StatusCode::FailedPrecondition,
            "domain: unknown packet sequence",
        ),
        (
            Failure::Relay(RelayError::NoRelayablePackets),
            ErrorKind::Domain,
            StatusCode::FailedPrecondition,
            "domain: no relayable packets",
        ),
        (
            Failure::Relay(RelayError::ProgramMismatch),
            ErrorKind::Domain,
            StatusCode::FailedPrecondition,
            "domain: proof program mismatch",
        ),
        (
            Failure::Client(ClientTxError::ConfigError),
            ErrorKind::Domain,
            StatusCode::FailedPrecondition,
            "domain: config error",
        ),
        (
            Failure::Client(ClientTxError::SourceUnavailable),
            ErrorKind::Transport,
            StatusCode::Unavailable,
            "transport: source unavailable",
        ),
        (
            Failure::Client(ClientTxError::InvalidTrustLevel),
            ErrorKind::Domain,
            StatusCode::FailedPrecondition,
            "domain: invalid trust level",
        ),
        (
            Failure::Client(ClientTxError::NoNewHeight),
            ErrorKind::Domain,
            StatusCode::FailedPrecondition,
            "domain: no new height",
        ),
        (
            Failure::Client(ClientTxError::ClientFrozen),
            ErrorKind::Domain,
            StatusCode::FailedPrecondition,
            "domain: client frozen",
        ),
        (
            Failure::Client(ClientTxError::ProgramMismatch),
            ErrorKind::Domain,
            StatusCode::FailedPrecondition,
            "domain: proof program mismatch",
        ),
        (
            Failure::Client(ClientTxError::UpdateInFlight),
            ErrorKind::Domain,
            StatusCode::FailedPrecondition,
            "domain: update in flight",
        ),
    ];
    for (failure, kind, code, message) in cases {
        assert_eq!(failure.kind(), kind);
        assert_eq!(status_code(kind), code);
        let status = failure.to_status();
        assert_eq!(status.code, code);
        assert_eq!(status.message, message);
    }
}

#[test]
fn respond_wraps_tx_or_status() {
    let response = respond(Ok(vec![1, 2, 3])).unwrap();
    assert_eq!(response.tx, vec![1, 2, 3]);
    assert_eq!(response.address, "");
    let status = respond(Err(Failure::Relay(RelayError::NoRelayablePackets))).unwrap_err();
    assert_eq!(status.code, StatusCode::FailedPrecondition);
    assert_eq!(status.message, "domain: no relayable packets");
}

#[test]
fn module_is_registered_under_its_name() {
    assert_eq!(CosmosToCosmosRelayerModule.name(), "cosmos_to_cosmos");
    assert!(module_named("cosmos_to_cosmos").is_some());
    assert!(module_named("cosmos_to_eth").is_none());
    assert!(module_named("").is_none());
    let config = CosmosToCosmosConfig::new(
        "http://src:26657".to_string(),
        "http://dst:26657".to_string(),
        "cosmos1abc".to_string(),
    );
    assert_eq!(config.src_rpc_url, "http://src:26657");
    assert_eq!(config.target_rpc_url, "http://dst:26657");
    assert_eq!(config.signer_address, "cosmos1abc");
}

#[test]
fn membership_plan_turns_texts_into_key_paths() {
    let height = Height::new(1, 8);
    let texts = vec!["clients/a".to_string(), "clients/b".to_string()];
    let plan = plan_membership(false, &texts, height).unwrap();
    assert_eq!(plan.len(), 2);
    assert_eq!(plan.at_height(), height);
    assert_eq!(plan.path(0), vec![b"ibc".to_vec(), b"clients/a".to_vec()]);
    assert_eq!(plan.path(1), vec![b"ibc".to_vec(), b"clients/b".to_vec()]);
    let texts = vec!["aWJj\\a2V5".to_string()];
    let plan = plan_membership(true, &texts, height).unwrap();
    assert_eq!(plan.path(0), vec![b"ibc".to_vec(), b"key".to_vec()]);
}

#[test]
fn membership_plan_reports_the_first_bad_path() {
    let height = Height::new(1, 8);
    assert!(matches!(
        plan_membership(false, &vec![], height),
        Err(Failure::Select(SelectError::NothingToProve))
    ));
    assert!(matches!(
        plan_membership(true, &vec![], height),
        Err(Failure::Select(SelectError::NothingToProve))
    ));
    let texts = vec![
        "aWJj\\a2V5".to_string(),
        "aWJj\\!!!!".to_string(),
        "aWJj".to_string(),
    ];
    assert!(matches!(
        plan_membership(true, &texts, height),
        Err(Failure::Path(PathError::InvalidEncoding))
    ));
    let texts = vec!["aWJj".to_string(), "aWJj\\!!!!".to_string()];
    assert!(matches!(
        plan_membership(true, &texts, height),
        Err(Failure::Path(PathError::InvalidPath))
    ));
}

#[test]
fn membership_request_pairs_paths_with_answers() {
    let height = Height::new(1, 8);
    let trusted = ConsensusState::new(3, [4; 32], [5; 32]);
    let texts = vec!["a".to_string(), "b".to_string()];
    let plan = plan_membership(false, &texts, height).unwrap();
    let answers = vec![
        Fetched { value: b"1".to_vec(), proof: b"x".to_vec() },
        Fetched { value: b"2".to_vec(), proof: b"y".to_vec() },
    ];
    let request = membership_request(&plan, answers, &trusted).unwrap();
    assert_eq!(request.program, ProofProgram::Membership);
    assert_eq!(request.trust_anchor, trusted);
    assert!(request.inputs.header.is_none());
    assert_eq!(request.inputs.pairs.len(), 2);
    assert_eq!(request.inputs.pairs[1].pair.path, vec![b"ibc".to_vec(), b"b".to_vec()]);
    assert_eq!(request.inputs.pairs[1].pair.value, b"2".to_vec());
    assert_eq!(request.inputs.pairs[1].proof, b"y".to_vec());
    assert_eq!(request.inputs.pairs[1].height, height);

    let short = vec![Fetched { value: vec![], proof: vec![] }];
    assert!(matches!(
        membership_request(&plan, short, &trusted),
        Err(Failure::Gather(GatherError::Incomplete))
    ));
}

#[test]
fn membership_bundle_rests_on_the_integrity_test() {
    let trusted = ConsensusState::new(3, [4; 32], [5; 32]);
    let encode = |root: [u8; 32]| {
        <(
            sol_data::FixedBytes<32>,
            sol_data::Array<(sol_data::Array<sol_data::Bytes>, sol_data::Bytes)>,
        ) as SolType>::abi_encode(&(
            root,
            vec![(vec![b"ibc".to_vec(), b"a".to_vec()], b"1".to_vec())],
        ))
    };
    let output = |values: Vec<u8>| ProverOutput {
        verifying_key: [6; 32],
        raw_proof: vec![7, 7],
        public_values: values,
    };
    let bundle = bundle_membership(&trusted, Some(output(encode([4; 32])))).unwrap();
    assert_eq!(bundle, encode_bundle(&[6; 32], &encode([4; 32]), &[7, 7], &trusted));
    assert!(matches!(
        bundle_membership(&trusted, Some(output(encode([9; 32])))),
        Err(Failure::Pipeline(PipelineError::ProofIntegrityViolation))
    ));
    assert!(matches!(
        bundle_membership(&trusted, Some(output(vec![1, 2, 3]))),
        Err(Failure::Pipeline(PipelineError::MalformedOutput))
    ));
    assert!(matches!(
        bundle_membership(&trusted, None),
        Err(Failure::Pipeline(PipelineError::ProverUnavailable))
    ));
}
