//! The proof pipeline: what is handed to the prover, and what is made of its
//! answer.
//!
//! The prover itself is outside this library. A caller assembles a request
//! with [`assemble_request`], has it proved, and brings the outcome to
//! [`conclude`], which decodes the public values, holds the commitment root
//! in them against the trusted one, and only then packages the proof.

use vstd::prelude::*;
use crate::abi::{MembershipOutput, MembershipOutputView, abi_decode_output, abi_decoded_output};
use crate::bytes::bytes32_eq;
use crate::path::ProvenPair;
use crate::program::ProofProgram;
use crate::trust::ConsensusState;

verus! {

/// How a proof request can fail.
#[derive(Clone, Copy, Debug, PartialEq, Eq, Structural)]
pub enum PipelineError {
    /// The inputs are not those that the chosen circuit takes.
    InputMismatch,
    /// The prover could not be reached or did not answer. The caller may try
    /// again later.
    ProverUnavailable,
    /// The prover's public values do not decode.
    MalformedOutput,
    /// The prover's public values name another commitment root than the
    /// trusted one. Never to be retried with the same inputs.
    ProofIntegrityViolation,
}

impl PipelineError {
    /// Only an unreachable prover is worth another try.
    pub open spec fn retryable(self) -> bool {
        self == PipelineError::ProverUnavailable
    }

    pub fn is_retryable(&self) -> (r: bool)
        ensures
            r == self.retryable(),
    {
        match self {
            PipelineError::ProverUnavailable => true,
            _ => false,
        }
    }
}

/// What a circuit is given besides the trust anchor.
#[derive(Debug)]
pub struct ProofInputs {
    /// The header to update to, for the circuits that update.
    pub header: Option<Vec<u8>>,
    /// The second, conflicting header, for the misbehaviour circuit.
    pub conflicting_header: Option<Vec<u8>>,
    /// The pairs to prove, each with its inclusion proof.
    pub pairs: Vec<ProvenPair>,
}

/// The inputs that each circuit takes: a header exactly where it updates,
/// pairs exactly where it proves membership, a second header exactly for
/// misbehaviour.
pub open spec fn inputs_fit(
    program: ProofProgram,
    has_header: bool,
    has_conflicting_header: bool,
    pair_count: nat,
) -> bool {
    match program {
        ProofProgram::UpdateClient => has_header && !has_conflicting_header && pair_count == 0,
        ProofProgram::Membership => !has_header && !has_conflicting_header && pair_count > 0,
        ProofProgram::UpdateClientAndMembership => has_header && !has_conflicting_header
            && pair_count > 0,
        ProofProgram::Misbehaviour => has_header && has_conflicting_header && pair_count == 0,
    }
}

/// Which inputs a circuit takes.
#[derive(Clone, Copy, Debug, PartialEq, Eq, Structural)]
pub struct InputNeeds {
    pub header: bool,
    pub conflicting_header: bool,
    pub pairs: bool,
}

/// Says which inputs the circuit takes, so that a caller fetches those and
/// no others.
pub fn needs_of(program: ProofProgram) -> (r: InputNeeds)
    ensures
        forall|has_header: bool, has_conflicting_header: bool, pair_count: nat|
            #[trigger] inputs_fit(program, has_header, has_conflicting_header, pair_count) <==> (
            has_header == r.header && has_conflicting_header == r.conflicting_header && (pair_count
                > 0) == r.pairs),
{
    match program {
        ProofProgram::UpdateClient => InputNeeds {
            header: true,
            conflicting_header: false,
            pairs: false,
        },
        ProofProgram::Membership => InputNeeds {
            header: false,
            conflicting_header: false,
            pairs: true,
        },
        ProofProgram::UpdateClientAndMembership => InputNeeds {
            header: true,
            conflicting_header: false,
            pairs: true,
        },
        ProofProgram::Misbehaviour => InputNeeds {
            header: true,
            conflicting_header: true,
            pairs: false,
        },
    }
}

/// What the prover is asked: the circuit, the public trust anchor and the
/// private inputs.
#[derive(Debug)]
pub struct ProverRequest {
    pub program: ProofProgram,
    pub trust_anchor: ConsensusState,
    pub inputs: ProofInputs,
}

/// Puts the request for the prover together, after testing that the inputs
/// are those of the circuit.
pub fn assemble_request(program: ProofProgram, trusted: &ConsensusState, inputs: ProofInputs) -> (r:
    Result<ProverRequest, PipelineError>)
    ensures
        inputs_fit(
            program,
            inputs.header is Some,
            inputs.conflicting_header is Some,
            inputs.pairs@.len(),
        ) ==> (r matches Ok(request) && request.program == program && request.trust_anchor@
            == trusted@ && request.inputs == inputs),
        !inputs_fit(
            program,
            inputs.header is Some,
            inputs.conflicting_header is Some,
            inputs.pairs@.len(),
        ) ==> r == Err::<ProverRequest, PipelineError>(PipelineError::InputMismatch),
{
    let has_header = inputs.header.is_some();
    let has_conflicting = inputs.conflicting_header.is_some();
    let has_pairs = inputs.pairs.len() > 0;
    let fits = match program {
        ProofProgram::UpdateClient => has_header && !has_conflicting && !has_pairs,
        ProofProgram::Membership => !has_header && !has_conflicting && has_pairs,
        ProofProgram::UpdateClientAndMembership => has_header && !has_conflicting && has_pairs,
        ProofProgram::Misbehaviour => has_header && has_conflicting && !has_pairs,
    };
    if !fits {
        return Err(PipelineError::InputMismatch);
    }
    Ok(ProverRequest { program, trust_anchor: *trusted, inputs })
}

/// What the prover answered.
#[derive(Debug)]
pub struct ProverOutput {
    pub verifying_key: [u8; 32],
    pub raw_proof: Vec<u8>,
    pub public_values: Vec<u8>,
}

/// The mathematical content of a [`ProofArtifact`].
pub struct ProofArtifactView {
    pub verifying_key: [u8; 32],
    pub raw_proof: Seq<u8>,
    pub public_values: Seq<u8>,
}

/// A proof that has passed the integrity test, ready for the verifier. It is
/// made once, by [`package`], cannot be copied, and is given up whole to the
/// one transaction that carries it.
#[derive(Debug)]
pub struct ProofArtifact {
    verifying_key: [u8; 32],
    raw_proof: Vec<u8>,
    public_values: Vec<u8>,
}

impl View for ProofArtifact {
    type V = ProofArtifactView;

    closed spec fn view(&self) -> ProofArtifactView {
        ProofArtifactView {
            verifying_key: self.verifying_key,
            raw_proof: self.raw_proof@,
            public_values: self.public_values@,
        }
    }
}

impl ProofArtifact {
    pub fn verifying_key(&self) -> (r: [u8; 32])
        ensures
            r == self@.verifying_key,
    {
        self.verifying_key
    }

    pub fn raw_proof(&self) -> (r: &Vec<u8>)
        ensures
            r@ == self@.raw_proof,
    {
        &self.raw_proof
    }

    pub fn public_values(&self) -> (r: &Vec<u8>)
        ensures
            r@ == self@.public_values,
    {
        &self.public_values
    }

    /// Gives the artifact up: the verifying key, the raw proof and the public
    /// values.
    pub fn into_parts(self) -> (r: ([u8; 32], Vec<u8>, Vec<u8>))
        ensures
            r.0 == self@.verifying_key,
            r.1@ == self@.raw_proof,
            r.2@ == self@.public_values,
    {
        (self.verifying_key, self.raw_proof, self.public_values)
    }
}

/// What [`package`] makes of a prover's answer and of what its public values
/// decoded to.
pub open spec fn packaged(
    trusted_root: [u8; 32],
    verifying_key: [u8; 32],
    raw_proof: Seq<u8>,
    public_values: Seq<u8>,
    decoded: Option<MembershipOutputView>,
) -> Result<ProofArtifactView, PipelineError> {
    match decoded {
        None => Err(PipelineError::MalformedOutput),
        Some(output) => if output.commitment_root == trusted_root {
            Ok(ProofArtifactView { verifying_key, raw_proof, public_values })
        } else {
            Err(PipelineError::ProofIntegrityViolation)
        },
    }
}

/// Holds the decoded public output (`None` where the public values did not
/// decode) against the trusted consensus state, and packages the proof if the
/// commitment roots agree.
pub fn package(trusted: &ConsensusState, answer: ProverOutput, decoded: Option<MembershipOutput>) -> (r:
    Result<ProofArtifact, PipelineError>)
    ensures
        match packaged(
            trusted@.commitment_root,
            answer.verifying_key,
            answer.raw_proof@,
            answer.public_values@,
            match decoded {
                Some(output) => Some(output@),
                None => None,
            },
        ) {
            Ok(artifact) => r matches Ok(a) && a@ == artifact,
            Err(e) => r == Err::<ProofArtifact, PipelineError>(e),
        },
{
    match decoded {
        None => Err(PipelineError::MalformedOutput),
        Some(output) => {
            let root = trusted.commitment_root();
            if bytes32_eq(&output.commitment_root, &root) {
                Ok(
                    ProofArtifact {
                        verifying_key: answer.verifying_key,
                        raw_proof: answer.raw_proof,
                        public_values: answer.public_values,
                    },
                )
            } else {
                Err(PipelineError::ProofIntegrityViolation)
            }
        },
    }
}

/// What [`conclude`] makes of the prover's outcome.
pub open spec fn concluded(trusted_root: [u8; 32], outcome: Option<ProverOutput>) -> Result<
    ProofArtifactView,
    PipelineError,
> {
    match outcome {
        None => Err(PipelineError::ProverUnavailable),
        Some(answer) => packaged(
            trusted_root,
            answer.verifying_key,
            answer.raw_proof@,
            answer.public_values@,
            abi_decoded_output(answer.public_values@),
        ),
    }
}

/// Ends a proof request. `outcome` is the prover's answer, or `None` where
/// the prover could not be reached.
///
/// An artifact comes back only if the public values decode and name the
/// trusted commitment root; so of every artifact made here, decoding its
/// public values and comparing the root with the trusted one succeeds.
pub fn conclude(trusted: &ConsensusState, outcome: Option<ProverOutput>) -> (r: Result<
    ProofArtifact,
    PipelineError,
>)
    ensures
        match concluded(trusted@.commitment_root, outcome) {
            Ok(artifact) => r matches Ok(a) && a@ == artifact,
            Err(e) => r == Err::<ProofArtifact, PipelineError>(e),
        },
        r matches Ok(a) ==> (abi_decoded_output(a@.public_values) matches Some(output)
            && output.commitment_root == trusted@.commitment_root),
{
    match outcome {
        None => Err(PipelineError::ProverUnavailable),
        Some(answer) => {
            let decoded = match abi_decode_output(answer.public_values.as_slice()) {
                Ok(output) => Some(output),
                Err(_) => None,
            };
            package(trusted, answer, decoded)
        },
    }
}

/// An artifact exists exactly when the prover answered, its public values
/// decode, and the decoded commitment root is the trusted one; each way of
/// failing has its own error.
pub proof fn conclusion_cases(trusted_root: [u8; 32], outcome: Option<ProverOutput>)
    ensures
        concluded(trusted_root, outcome) is Ok <==> (outcome matches Some(answer)
            && abi_decoded_output(answer.public_values@) matches Some(output)
            && output.commitment_root == trusted_root),
        concluded(trusted_root, outcome) == Err::<ProofArtifactView, PipelineError>(
            PipelineError::ProverUnavailable,
        ) <==> outcome is None,
        concluded(trusted_root, outcome) == Err::<ProofArtifactView, PipelineError>(
            PipelineError::MalformedOutput,
        ) <==> (outcome matches Some(answer) && abi_decoded_output(answer.public_values@) is None),
        concluded(trusted_root, outcome) == Err::<ProofArtifactView, PipelineError>(
            PipelineError::ProofIntegrityViolation,
        ) <==> (outcome matches Some(answer) && abi_decoded_output(answer.public_values@) matches Some(
            output,
        ) && output.commitment_root != trusted_root),
        concluded(trusted_root, outcome) != Err::<ProofArtifactView, PipelineError>(
            PipelineError::InputMismatch,
        ),
{
}

} // verus!
