use alloy::sol_types::{sol_data, SolType};
use ibc_relay_core::abi::{
    encode_bundle, encode_client_state, encode_consensus_state, encode_height, MembershipOutput,
};
use ibc_relay_core::fixture::{ProgramKeys, SP1ICS07MembershipFixture, SP1ICS07TendermintGenesis};
use ibc_relay_core::height::Height;
use ibc_relay_core::path::{plan_fetch, gather, Fetched, KVPair};
use ibc_relay_core::pipeline::{
    assemble_request, conclude, needs_of, package, InputNeeds, PipelineError, ProofInputs,
    ProverOutput,
};
use ibc_relay_core::program::ProofProgram;
use ibc_relay_core::trust::{ConsensusState, Fraction, ProofAlgorithm, TrustedBlock};

fn word(n: u64) -> Vec<u8> {
    let mut w = vec![0u8; 24];
    w.extend_from_slice(&n.to_be_bytes());
    w
}

fn public_values(root: [u8; 32], pairs: Vec<(Vec<Vec<u8>>, Vec<u8>)>) -> Vec<u8> {
    <(
        sol_data::FixedBytes<32>,
        sol_data::Array<(sol_data::Array<sol_data::Bytes>, sol_data::Bytes)>,
    ) as SolType>::abi_encode(&(root, pairs))
}

fn trusted() -> ConsensusState {
    ConsensusState::new(1_700_000_000, [0xaa; 32], [0xbb; 32])
}

fn answer(values: Vec<u8>) -> ProverOutput {
    ProverOutput { verifying_key: [0x11; 32], raw_proof: vec![9, 8, 7], public_values: values }
}

#[test]
fn height_encodes_as_two_words() {
    let bytes = encode_height(&Height::new(1, 0x0102030405060708));
    let mut expected = word(1);
    expected.extend_from_slice(&word(0x0102030405060708));
    assert_eq!(bytes, expected);
    assert_eq!(bytes.len(), 64);
    assert_eq!(&bytes[56..], &[1, 2, 3, 4, 5, 6, 7, 8]);
    assert_eq!(
        bytes,
        <(sol_data::Uint<64>, sol_data::Uint<64>) as SolType>::abi_encode(&(
            1u64,
            0x0102030405060708u64
        ))
    );
    assert_eq!(encode_height(&Height::new(0, 0)), vec![0u8; 64]);
    assert_eq!(
        encode_height(&Height::new(u64::MAX, u64::MAX)),
        [vec![0u8; 24], vec![0xff; 8], vec![0u8; 24], vec![0xff; 8]].concat()
    );
}

#[test]
fn consensus_state_encodes_as_three_words() {
    let bytes = encode_consensus_state(&trusted());
    let expected = [word(1_700_000_000), vec![0xaa; 32], vec![0xbb; 32]].concat();
    assert_eq!(bytes, expected);
    assert_eq!(
        bytes,
        <(sol_data::Uint<64>, sol_data::FixedBytes<32>, sol_data::FixedBytes<32>) as SolType>::abi_encode(
            &(1_700_000_000u64, [0xaau8; 32], [0xbbu8; 32])
        )
    );
}

#[test]
fn client_state_encodes_as_six_words() {
    let block = TrustedBlock {
        height: Height::new(4, 77),
        timestamp: 5,
        app_hash: [1; 32],
        next_validators_hash: [2; 32],
    };
    let (client, _) =
        ibc_relay_core::trust::derive(Some(block), 1_209_600, Fraction::new(1, 3), ProofAlgorithm::Plonk)
            .unwrap();
    let expected = [word(1_209_600), word(1), word(3), word(4), word(77), word(1)].concat();
    assert_eq!(encode_client_state(&client), expected);
    let (client, _) =
        ibc_relay_core::trust::derive(Some(block), 0, Fraction::new(2, 3), ProofAlgorithm::Groth16)
            .unwrap();
    let expected = [word(0), word(2), word(3), word(4), word(77), word(0)].concat();
    assert_eq!(encode_client_state(&client), expected);
}

#[test]
fn request_takes_the_inputs_of_its_circuit() {
    let height = Height::new(1, 1);
    let pairs = || {
        let plan = plan_fetch(vec![vec![b"ibc".to_vec(), b"k".to_vec()]], height).unwrap();
        gather(&plan, vec![Fetched { value: b"v".to_vec(), proof: b"p".to_vec() }]).unwrap()
    };
    let cases: Vec<(ProofProgram, bool, bool, bool, bool)> = vec![
        (ProofProgram::UpdateClient, true, false, false, true),
        (ProofProgram::UpdateClient, false, false, false, false),
        (ProofProgram::UpdateClient, true, false, true, false),
        (ProofProgram::Membership, false, false, true, true),
        (ProofProgram::Membership, false, false, false, false),
        (ProofProgram::Membership, true, false, true, false),
        (ProofProgram::UpdateClientAndMembership, true, false, true, true),
        (ProofProgram::UpdateClientAndMembership, true, false, false, false),
        (ProofProgram::UpdateClientAndMembership, false, false, true, false),
        (ProofProgram::Misbehaviour, true, true, false, true),
        (ProofProgram::Misbehaviour, true, false, false, false),
        (ProofProgram::Misbehaviour, true, true, true, false),
        (ProofProgram::UpdateClient, true, true, false, false),
    ];
    for (program, header, conflicting, with_pairs, fits) in cases {
        let inputs = ProofInputs {
            header: if header { Some(vec![1]) } else { None },
            conflicting_header: if conflicting { Some(vec![2]) } else { None },
            pairs: if with_pairs { pairs() } else { vec![] },
        };
        let r = assemble_request(program, &trusted(), inputs);
        if fits {
            let request = r.unwrap();
            assert_eq!(request.program, program);
            assert_eq!(request.trust_anchor, trusted());
            assert_eq!(request.inputs.header.is_some(), header);
            assert_eq!(request.inputs.pairs.len(), if with_pairs { 1 } else { 0 });
        } else {
            assert_eq!(r.unwrap_err(), PipelineError::InputMismatch);
        }
    }
}

#[test]
fn proof_with_the_trusted_root_is_packaged() {
    let values = public_values(
        [0xaa; 32],
        vec![(vec![b"ibc".to_vec(), b"key".to_vec()], b"value".to_vec())],
    );
    let artifact = conclude(&trusted(), Some(answer(values.clone()))).unwrap();
    assert_eq!(artifact.verifying_key(), [0x11; 32]);
    assert_eq!(artifact.raw_proof(), &vec![9, 8, 7]);
    assert_eq!(artifact.public_values(), &values);
    // Decoding the artifact's public values again gives the trusted root.
    let (root, pairs) = <(
        sol_data::FixedBytes<32>,
        sol_data::Array<(sol_data::Array<sol_data::Bytes>, sol_data::Bytes)>,
    ) as SolType>::abi_decode(artifact.public_values())
    .unwrap();
    assert_eq!(root.0, trusted().commitment_root());
    assert_eq!(pairs.len(), 1);
    let (key, raw, public) = artifact.into_parts();
    assert_eq!(key, [0x11; 32]);
    assert_eq!(raw, vec![9, 8, 7]);
    assert_eq!(public, values);
}

#[test]
fn proof_with_a_corrupted_root_is_rejected() {
    let mut values = public_values(
        [0xaa; 32],
        vec![(vec![b"ibc".to_vec(), b"key".to_vec()], b"value".to_vec())],
    );
    // The root is the second word of the encoding.
    values[32] ^= 0x01;
    assert_eq!(
        conclude(&trusted(), Some(answer(values))).unwrap_err(),
        PipelineError::ProofIntegrityViolation
    );
    let other = public_values([0xab; 32], vec![]);
    assert_eq!(
        conclude(&trusted(), Some(answer(other))).unwrap_err(),
        PipelineError::ProofIntegrityViolation
    );
    let mut last = public_values([0xaa; 32], vec![]);
    last[63] ^= 0x80;
    assert_eq!(
        conclude(&trusted(), Some(answer(last))).unwrap_err(),
        PipelineError::ProofIntegrityViolation
    );
}

#[test]
fn undecodable_public_values_are_malformed() {
    for values in [vec![], vec![0u8; 31], vec![0xff; 64], vec![0xff; 200]] {
        assert_eq!(
            conclude(&trusted(), Some(answer(values))).unwrap_err(),
            PipelineError::MalformedOutput
        );
    }
}

#[test]
fn unreachable_prover_is_retryable() {
    let e = conclude(&trusted(), None).unwrap_err();
    assert_eq!(e, PipelineError::ProverUnavailable);
    assert!(e.is_retryable());
    assert!(!PipelineError::ProofIntegrityViolation.is_retryable());
    assert!(!PipelineError::MalformedOutput.is_retryable());
    assert!(!PipelineError::InputMismatch.is_retryable());
}

#[test]
fn package_judges_the_decoded_output() {
    let good = MembershipOutput { commitment_root: [0xaa; 32], kv_pairs: vec![] };
    assert!(package(&trusted(), answer(vec![1]), Some(good)).is_ok());
    let pair = KVPair { path: vec![b"ibc".to_vec(), b"k".to_vec()], value: vec![] };
    let bad = MembershipOutput { commitment_root: [0xa0; 32], kv_pairs: vec![pair] };
    assert_eq!(
        package(&trusted(), answer(vec![1]), Some(bad)).unwrap_err(),
        PipelineError::ProofIntegrityViolation
    );
    assert_eq!(
        package(&trusted(), answer(vec![1]), None).unwrap_err(),
        PipelineError::MalformedOutput
    );
}

#[test]
fn bundle_is_the_tagged_encoding_of_proof_and_state() {
    let bundle = encode_bundle(&[0x11; 32], b"public", b"raw", &trusted());
    let inner = <(
        (sol_data::FixedBytes<32>, sol_data::Bytes, sol_data::Bytes),
        (sol_data::Uint<64>, sol_data::FixedBytes<32>, sol_data::FixedBytes<32>),
    ) as SolType>::abi_encode(&(
        ([0x11u8; 32], b"public".to_vec(), b"raw".to_vec()),
        (1_700_000_000u64, [0xaau8; 32], [0xbbu8; 32]),
    ));
    let outer = <(sol_data::Uint<8>, sol_data::Bytes) as SolType>::abi_encode(&(0u8, inner.clone()));
    assert_eq!(bundle, outer);
    assert_ne!(bundle, inner);
    assert_ne!(bundle, b"raw".to_vec());
}

#[test]
fn fixture_holds_genesis_height_and_bundle() {
    let block = TrustedBlock {
        height: Height::new(1, 42),
        timestamp: 1_700_000_000,
        app_hash: [0xaa; 32],
        next_validators_hash: [0xbb; 32],
    };
    let (client, consensus) =
        ibc_relay_core::trust::derive(Some(block), 100, Fraction::new(1, 3), ProofAlgorithm::Groth16)
            .unwrap();
    let keys = ProgramKeys {
        update_client_vkey: "0x01".to_string(),
        membership_vkey: "0x02".to_string(),
        uc_and_membership_vkey: "0x03".to_string(),
        misbehaviour_vkey: "0x04".to_string(),
    };
    let genesis = SP1ICS07TendermintGenesis::new(&client, &consensus, keys);
    assert_eq!(genesis.trusted_client_state, encode_client_state(&client));
    assert_eq!(genesis.trusted_consensus_state, encode_consensus_state(&consensus));
    assert_eq!(genesis.update_client_vkey, "0x01");
    assert_eq!(genesis.membership_vkey, "0x02");
    assert_eq!(genesis.uc_and_membership_vkey, "0x03");
    assert_eq!(genesis.misbehaviour_vkey, "0x04");

    assert!(genesis.is_anchored_in(&client, &consensus));
    let (other_client, other_consensus) = ibc_relay_core::trust::derive(
        Some(TrustedBlock { height: Height::new(1, 43), ..block }),
        100,
        Fraction::new(1, 3),
        ProofAlgorithm::Groth16,
    )
    .unwrap();
    assert!(!genesis.is_anchored_in(&other_client, &consensus));
    assert!(!genesis.is_anchored_in(&client, &ConsensusState::new(1, [0xaa; 32], [0xbb; 32])));
    assert!(genesis.is_anchored_in(&client, &other_consensus));

    let values = public_values([0xaa; 32], vec![]);
    let artifact = conclude(&consensus, Some(answer(values.clone()))).unwrap();
    let fixture = SP1ICS07MembershipFixture::new(genesis.clone(), &client, &consensus, artifact);
    assert_eq!(fixture.proof_height, encode_height(&Height::new(1, 42)));
    assert_eq!(
        fixture.membership_proof,
        encode_bundle(&[0x11; 32], &values, &[9, 8, 7], &consensus)
    );
    assert_eq!(fixture.genesis.trusted_client_state, genesis.trusted_client_state);
    assert_eq!(fixture.genesis.membership_vkey, "0x02");
}

#[test]
fn circuits_name_their_inputs() {
    assert_eq!(
        needs_of(ProofProgram::UpdateClient),
        InputNeeds { header: true, conflicting_header: false, pairs: false }
    );
    assert_eq!(
        needs_of(ProofProgram::Membership),
        InputNeeds { header: false, conflicting_header: false, pairs: true }
    );
    assert_eq!(
        needs_of(ProofProgram::UpdateClientAndMembership),
        InputNeeds { header: true, conflicting_header: false, pairs: true }
    );
    assert_eq!(
        needs_of(ProofProgram::Misbehaviour),
        InputNeeds { header: true, conflicting_header: true, pairs: false }
    );
}
