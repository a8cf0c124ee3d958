//! The byte encodings that the destination chain's verifier reads: 32-byte
//! big-endian words for integers, fixed-size values as they are, and the
//! prover's public output.

use vstd::prelude::*;
use alloy::sol_types::{SolType, sol_data};
use crate::bytes::{append_bytes, be_bytes};
use crate::height::Height;
use crate::path::{KVPair, KVPairView, pair_views};
use crate::trust::{ClientState, ConsensusState, ProofAlgorithm};

verus! {

/// The 32-byte word that holds `n`: twenty-four zero bytes, then the eight
/// bytes of `n`, most significant first.
pub open spec fn be_word(n: u64) -> Seq<u8> {
    Seq::new(24, |i: int| 0u8) + be_bytes(n)
}

/// Calls alloy's `SolType::abi_encode` for `uint64`. The contract says that
/// the result is the one word that holds the integer, left-padded with zeros.
#[verifier::external_body]
fn abi_word(n: u64) -> (r: Vec<u8>)
    ensures
        r@ == be_word(n),
{
    <sol_data::Uint<64> as SolType>::abi_encode(&n)
}

/// The encoding of a height: its revision, then its block number.
pub open spec fn height_encoding(h: Height) -> Seq<u8> {
    be_word(h.revision) + be_word(h.block_number)
}

/// The number that stands for a proof system in an encoding.
pub open spec fn algorithm_tag(a: ProofAlgorithm) -> u64 {
    match a {
        ProofAlgorithm::Groth16 => 0,
        ProofAlgorithm::Plonk => 1,
    }
}

/// The encoding of a consensus state: the timestamp as a word, then the two
/// 32-byte hashes.
pub open spec fn consensus_encoding(timestamp: u64, root: [u8; 32], validators: [u8; 32]) -> Seq<
    u8,
> {
    be_word(timestamp) + root@ + validators@
}

/// The encoding of a client state: six words, for the trusting period, the
/// trust level's numerator and denominator, the latest height's revision and
/// block number, and the proof system.
pub open spec fn client_encoding(
    trusting_period: u64,
    numerator: u64,
    denominator: u64,
    latest: Height,
    algorithm: ProofAlgorithm,
) -> Seq<u8> {
    be_word(trusting_period) + be_word(numerator) + be_word(denominator) + height_encoding(latest)
        + be_word(algorithm_tag(algorithm))
}

pub fn encode_height(h: &Height) -> (r: Vec<u8>)
    ensures
        r@ == height_encoding(*h),
        r@.len() == 64,
{
    let mut out = abi_word(h.revision);
    let second = abi_word(h.block_number);
    append_bytes(&mut out, second.as_slice());
    out
}

pub fn encode_consensus_state(state: &ConsensusState) -> (r: Vec<u8>)
    ensures
        r@ == consensus_encoding(
            state@.timestamp,
            state@.commitment_root,
            state@.next_validators_hash,
        ),
        r@.len() == 96,
{
    broadcast use vstd::array::group_array_axioms;

    let mut out = abi_word(state.timestamp());
    let root = state.commitment_root();
    let validators = state.next_validators_hash();
    append_bytes(&mut out, root.as_slice());
    append_bytes(&mut out, validators.as_slice());
    out
}

pub fn encode_client_state(state: &ClientState) -> (r: Vec<u8>)
    ensures
        r@ == client_encoding(
            state@.trusting_period,
            state@.trust_level.numerator,
            state@.trust_level.denominator,
            state@.latest_height,
            state@.proof_type,
        ),
        r@.len() == 192,
{
    let mut out = abi_word(state.trusting_period());
    let level = state.trust_level();
    let numerator = abi_word(level.numerator);
    append_bytes(&mut out, numerator.as_slice());
    let denominator = abi_word(level.denominator);
    append_bytes(&mut out, denominator.as_slice());
    let latest = encode_height(&state.latest_height());
    append_bytes(&mut out, latest.as_slice());
    let tag: u64 = match state.proof_type() {
        ProofAlgorithm::Groth16 => 0,
        ProofAlgorithm::Plonk => 1,
    };
    let algorithm = abi_word(tag);
    append_bytes(&mut out, algorithm.as_slice());
    out
}

/// What a membership circuit makes public: the commitment root it proved
/// against, and the pairs it proved.
#[derive(Debug)]
pub struct MembershipOutput {
    pub commitment_root: [u8; 32],
    pub kv_pairs: Vec<KVPair>,
}

/// The mathematical content of a [`MembershipOutput`].
pub struct MembershipOutputView {
    pub commitment_root: [u8; 32],
    pub kv_pairs: Seq<KVPairView>,
}

impl View for MembershipOutput {
    type V = MembershipOutputView;

    open spec fn view(&self) -> MembershipOutputView {
        MembershipOutputView {
            commitment_root: self.commitment_root,
            kv_pairs: pair_views(self.kv_pairs@),
        }
    }
}

/// What decoding makes of a prover's public values: the output, or `None`
/// where the bytes do not decode.
pub uninterp spec fn abi_decoded_output(data: Seq<u8>) -> Option<MembershipOutputView>;

#[verifier::external_type_specification]
#[verifier::external_body]
pub struct ExAbiError(alloy::sol_types::Error);

/// Calls alloy's `SolType::abi_decode` for the shape
/// `(bytes32, (bytes[], bytes)[])`. The contract only gives the outcome a
/// name, as a function of the bytes; nothing is claimed of which bytes decode.
#[verifier::external_body]
pub(crate) fn abi_decode_output(data: &[u8]) -> (r: Result<MembershipOutput, alloy::sol_types::Error>)
    ensures
        match r {
            Ok(out) => abi_decoded_output(data@) == Some(out@),
            Err(_) => abi_decoded_output(data@) is None,
        },
{
    let (root, pairs) = <(
        sol_data::FixedBytes<32>,
        sol_data::Array<(sol_data::Array<sol_data::Bytes>, sol_data::Bytes)>,
    ) as SolType>::abi_decode(data)?;
    let kv_pairs = pairs.into_iter().map(
        |(path, value)| KVPair {
            path: path.into_iter().map(|segment| segment.to_vec()).collect(),
            value: value.to_vec(),
        },
    ).collect();
    Ok(MembershipOutput { commitment_root: root.0, kv_pairs })
}

/// The bytes that alloy's encoder makes of an SP1 proof together with the
/// consensus state it was proved against.
pub uninterp spec fn sp1_proof_encoded(
    verifying_key: Seq<u8>,
    public_values: Seq<u8>,
    raw_proof: Seq<u8>,
    timestamp: u64,
    root: Seq<u8>,
    validators: Seq<u8>,
) -> Seq<u8>;

/// Calls alloy's `SolType::abi_encode` for the shape
/// `((bytes32, bytes, bytes), (uint64, bytes32, bytes32))`: the proof (key,
/// public values, raw proof) and the trusted consensus state. The contract
/// only gives the result a name, as a function of the six values.
#[verifier::external_body]
fn abi_encode_sp1_proof(
    verifying_key: &[u8; 32],
    public_values: &[u8],
    raw_proof: &[u8],
    timestamp: u64,
    root: &[u8; 32],
    validators: &[u8; 32],
) -> (r: Vec<u8>)
    ensures
        r@ == sp1_proof_encoded(
            verifying_key@,
            public_values@,
            raw_proof@,
            timestamp,
            root@,
            validators@,
        ),
{
    <(
        (sol_data::FixedBytes<32>, sol_data::Bytes, sol_data::Bytes),
        (sol_data::Uint<64>, sol_data::FixedBytes<32>, sol_data::FixedBytes<32>),
    ) as SolType>::abi_encode(
        &((verifying_key, public_values, raw_proof), (timestamp, root, validators)),
    )
}

/// The bytes that alloy's encoder makes of a proof and the number that says
/// of which kind it is.
pub uninterp spec fn tagged_proof_encoded(kind: u8, proof: Seq<u8>) -> Seq<u8>;

/// Calls alloy's `SolType::abi_encode` for the shape `(uint8, bytes)`. The
/// contract only gives the result a name, as a function of the two values.
#[verifier::external_body]
fn abi_encode_tagged_proof(kind: u8, proof: &[u8]) -> (r: Vec<u8>)
    ensures
        r@ == tagged_proof_encoded(kind, proof@),
{
    <(sol_data::Uint<8>, sol_data::Bytes) as SolType>::abi_encode(&(kind, proof))
}

/// The kind of a membership proof made by the SP1 prover.
pub const SP1_MEMBERSHIP_PROOF: u8 = 0;

/// The proof bundle that a verifier reads: the SP1 proof with the consensus
/// state it rests on, tagged with its kind.
pub open spec fn bundle_encoding(
    verifying_key: [u8; 32],
    public_values: Seq<u8>,
    raw_proof: Seq<u8>,
    timestamp: u64,
    root: [u8; 32],
    validators: [u8; 32],
) -> Seq<u8> {
    tagged_proof_encoded(
        SP1_MEMBERSHIP_PROOF,
        sp1_proof_encoded(verifying_key@, public_values, raw_proof, timestamp, root@, validators@),
    )
}

/// Encodes a proof bundle from the parts of a proof and the consensus state
/// that it was proved against.
pub fn encode_bundle(
    verifying_key: &[u8; 32],
    public_values: &[u8],
    raw_proof: &[u8],
    trusted: &ConsensusState,
) -> (r: Vec<u8>)
    ensures
        r@ == bundle_encoding(
            *verifying_key,
            public_values@,
            raw_proof@,
            trusted@.timestamp,
            trusted@.commitment_root,
            trusted@.next_validators_hash,
        ),
{
    let root = trusted.commitment_root();
    let validators = trusted.next_validators_hash();
    let inner = abi_encode_sp1_proof(
        verifying_key,
        public_values,
        raw_proof,
        trusted.timestamp(),
        &root,
        &validators,
    );
    abi_encode_tagged_proof(SP1_MEMBERSHIP_PROOF, inner.as_slice())
}

} // verus!
