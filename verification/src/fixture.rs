//! The fixture that records one membership proof for later checks of the
//! verifier: the genesis it starts from, the height it was proved at, and
//! the proof bundle.

use vstd::prelude::*;
use crate::abi::{
    bundle_encoding,
    client_encoding,
    consensus_encoding,
    encode_bundle,
    encode_client_state,
    encode_consensus_state,
    encode_height,
    height_encoding,
};
use crate::bytes::bytes_eq;
use crate::pipeline::ProofArtifact;
use crate::trust::{ClientState, ConsensusState};

verus! {

/// The verifying keys of the four circuits, as text.
#[derive(Clone, Debug)]
pub struct ProgramKeys {
    pub update_client_vkey: String,
    pub membership_vkey: String,
    pub uc_and_membership_vkey: String,
    pub misbehaviour_vkey: String,
}

/// What a client starts from: its encoded client state and consensus state,
/// and the verifying keys of the circuits.
#[derive(Clone, Debug)]
pub struct SP1ICS07TendermintGenesis {
    pub trusted_client_state: Vec<u8>,
    pub trusted_consensus_state: Vec<u8>,
    pub update_client_vkey: String,
    pub membership_vkey: String,
    pub uc_and_membership_vkey: String,
    pub misbehaviour_vkey: String,
}

/// The fixture data of one membership proof.
#[derive(Clone, Debug)]
pub struct SP1ICS07MembershipFixture {
    /// The genesis data.
    pub genesis: SP1ICS07TendermintGenesis,
    /// The encoded height of the proof.
    pub proof_height: Vec<u8>,
    /// The encoded proof bundle.
    pub membership_proof: Vec<u8>,
}

/// The genesis holds the encodings of this client state and this consensus
/// state.
pub open spec fn anchored_in(
    genesis: SP1ICS07TendermintGenesis,
    client: ClientState,
    consensus: ConsensusState,
) -> bool {
    &&& genesis.trusted_client_state@ == client_encoding(
        client@.trusting_period,
        client@.trust_level.numerator,
        client@.trust_level.denominator,
        client@.latest_height,
        client@.proof_type,
    )
    &&& genesis.trusted_consensus_state@ == consensus_encoding(
        consensus@.timestamp,
        consensus@.commitment_root,
        consensus@.next_validators_hash,
    )
}

impl SP1ICS07TendermintGenesis {
    /// Makes the genesis of a freshly derived trust anchor.
    pub fn new(client: &ClientState, consensus: &ConsensusState, keys: ProgramKeys) -> (r: Self)
        ensures
            anchored_in(r, *client, *consensus),
            r.update_client_vkey == keys.update_client_vkey,
            r.membership_vkey == keys.membership_vkey,
            r.uc_and_membership_vkey == keys.uc_and_membership_vkey,
            r.misbehaviour_vkey == keys.misbehaviour_vkey,
    {
        SP1ICS07TendermintGenesis {
            trusted_client_state: encode_client_state(client),
            trusted_consensus_state: encode_consensus_state(consensus),
            update_client_vkey: keys.update_client_vkey,
            membership_vkey: keys.membership_vkey,
            uc_and_membership_vkey: keys.uc_and_membership_vkey,
            misbehaviour_vkey: keys.misbehaviour_vkey,
        }
    }
}

impl SP1ICS07TendermintGenesis {
    /// Tests whether the genesis holds the encodings of this client state and
    /// this consensus state.
    pub fn is_anchored_in(&self, client: &ClientState, consensus: &ConsensusState) -> (r: bool)
        ensures
            r == anchored_in(*self, *client, *consensus),
    {
        let client_bytes = encode_client_state(client);
        let consensus_bytes = encode_consensus_state(consensus);
        bytes_eq(self.trusted_client_state.as_slice(), client_bytes.as_slice()) && bytes_eq(
            self.trusted_consensus_state.as_slice(),
            consensus_bytes.as_slice(),
        )
    }
}

impl SP1ICS07MembershipFixture {
    /// Makes the fixture of a membership proof: the genesis as given, the
    /// client's latest height encoded, and the proof bundled with the
    /// consensus state it was proved against. The genesis must be that of
    /// this client state and consensus state, so that the height of the proof
    /// is the height that the genesis trusts. The artifact is used up.
    pub fn new(
        genesis: SP1ICS07TendermintGenesis,
        client: &ClientState,
        consensus: &ConsensusState,
        artifact: ProofArtifact,
    ) -> (r: Self)
        requires
            anchored_in(genesis, *client, *consensus),
        ensures
            r.genesis == genesis,
            r.proof_height@ == height_encoding(client@.latest_height),
            r.membership_proof@ == bundle_encoding(
                artifact@.verifying_key,
                artifact@.public_values,
                artifact@.raw_proof,
                consensus@.timestamp,
                consensus@.commitment_root,
                consensus@.next_validators_hash,
            ),
    {
        let (verifying_key, raw_proof, public_values) = artifact.into_parts();
        let membership_proof = encode_bundle(
            &verifying_key,
            public_values.as_slice(),
            raw_proof.as_slice(),
            consensus,
        );
        SP1ICS07MembershipFixture {
            genesis,
            proof_height: encode_height(&client.latest_height()),
            membership_proof,
        }
    }
}

} // verus!
