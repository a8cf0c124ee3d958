//! The life of a light client on the destination chain: its creation, its
//! updates, and its end when misbehaviour is proved.

use vstd::prelude::*;
use vstd::string::StringExecFns;
use crate::abi::{client_encoding, consensus_encoding, encode_client_state, encode_consensus_state};
use crate::bytes::bytes32_eq;
use crate::height::Height;
use crate::pipeline::ProofArtifact;
use crate::program::{ProofProgram, SelectError, selected, update_needed};
use crate::trust::{DeriveError, Fraction, ProofAlgorithm, TrustedBlock, derived};

verus! {

/// Why a client transaction was not built.
#[derive(Clone, Copy, Debug, PartialEq, Eq, Structural)]
pub enum ClientTxError {
    /// A required trust parameter is absent.
    ConfigError,
    /// The block to anchor the client in could not be had.
    SourceUnavailable,
    /// The trust level is not a fraction in (0, 1].
    InvalidTrustLevel,
    /// The source chain has not gone past the height that the destination
    /// already trusts.
    NoNewHeight,
    /// Misbehaviour has been proved of the client: it takes no more updates.
    ClientFrozen,
    /// The proof was made by a circuit that proves no update of this kind.
    ProgramMismatch,
    /// Another update of the same client has not ended yet.
    UpdateInFlight,
}

/// The trust parameters of a client to be created. Each is required.
#[derive(Clone, Copy, Debug, PartialEq, Eq)]
pub struct CreateClientParams {
    pub trusting_period: Option<u64>,
    pub trust_level: Option<Fraction>,
    pub proof_type: Option<ProofAlgorithm>,
}

/// The proof system that a name stands for: `groth16` or `plonk`.
pub open spec fn algorithm_named(name: Seq<char>) -> Option<ProofAlgorithm> {
    if name == "groth16"@ {
        Some(ProofAlgorithm::Groth16)
    } else if name == "plonk"@ {
        Some(ProofAlgorithm::Plonk)
    } else {
        None
    }
}

/// Reads the name of a proof system.
pub fn parse_proof_algorithm(name: &str) -> (r: Option<ProofAlgorithm>)
    ensures
        r == algorithm_named(name@),
{
    let given = String::from_str(name);
    if given == String::from_str("groth16") {
        Some(ProofAlgorithm::Groth16)
    } else if given == String::from_str("plonk") {
        Some(ProofAlgorithm::Plonk)
    } else {
        None
    }
}

impl CreateClientParams {
    /// Puts the parameters together from what a request gave. The trust
    /// level is there when both its parts are; the proof system is there
    /// when its name is given and known.
    pub fn from_parts(
        trusting_period: Option<u64>,
        numerator: Option<u64>,
        denominator: Option<u64>,
        proof_type: Option<String>,
    ) -> (r: CreateClientParams)
        ensures
            r.trusting_period == trusting_period,
            r.trust_level == match (numerator, denominator) {
                (Some(n), Some(d)) => Some(Fraction { numerator: n, denominator: d }),
                _ => None,
            },
            r.proof_type == match proof_type {
                Some(name) => algorithm_named(name@),
                None => None,
            },
    {
        let trust_level = match (numerator, denominator) {
            (Some(n), Some(d)) => Some(Fraction::new(n, d)),
            _ => None,
        };
        let algorithm = match proof_type {
            Some(name) => parse_proof_algorithm(name.as_str()),
            None => None,
        };
        CreateClientParams { trusting_period, trust_level, proof_type: algorithm }
    }
}

/// The message that creates a client: its encoded client state and consensus
/// state, and the address that will sign.
#[derive(Debug)]
pub struct CreateClientTx {
    pub client_state: Vec<u8>,
    pub consensus_state: Vec<u8>,
    pub signer: String,
}

/// The two encodings of a client-creation message, or why there is none.
/// Absent parameters are reported first, then a missing block, then a bad
/// trust level.
pub open spec fn creation(params: CreateClientParams, block: Option<TrustedBlock>) -> Result<
    (Seq<u8>, Seq<u8>),
    ClientTxError,
> {
    match (params.trusting_period, params.trust_level, params.proof_type) {
        (Some(period), Some(level), Some(algorithm)) => match derived(
            block,
            period,
            level,
            algorithm,
        ) {
            Ok((client, consensus)) => Ok(
                (
                    client_encoding(
                        client.trusting_period,
                        client.trust_level.numerator,
                        client.trust_level.denominator,
                        client.latest_height,
                        client.proof_type,
                    ),
                    consensus_encoding(
                        consensus.timestamp,
                        consensus.commitment_root,
                        consensus.next_validators_hash,
                    ),
                ),
            ),
            Err(DeriveError::SourceUnavailable) => Err(ClientTxError::SourceUnavailable),
            Err(DeriveError::InvalidTrustLevel) => Err(ClientTxError::InvalidTrustLevel),
        },
        _ => Err(ClientTxError::ConfigError),
    }
}

/// What a failed derivation is called as the failure of a client
/// transaction.
pub open spec fn derive_failure_of(e: DeriveError) -> ClientTxError {
    match e {
        DeriveError::SourceUnavailable => ClientTxError::SourceUnavailable,
        DeriveError::InvalidTrustLevel => ClientTxError::InvalidTrustLevel,
    }
}

pub fn derive_failure(e: DeriveError) -> (r: ClientTxError)
    ensures
        r == derive_failure_of(e),
{
    match e {
        DeriveError::SourceUnavailable => ClientTxError::SourceUnavailable,
        DeriveError::InvalidTrustLevel => ClientTxError::InvalidTrustLevel,
    }
}

/// Builds the message that creates a client anchored in `block` (`None`
/// where the block could not be fetched).
pub fn create_client(params: &CreateClientParams, block: Option<TrustedBlock>, signer: String) -> (r:
    Result<CreateClientTx, ClientTxError>)
    ensures
        match creation(*params, block) {
            Ok((client, consensus)) => r matches Ok(tx) && tx.client_state@ == client
                && tx.consensus_state@ == consensus && tx.signer == signer,
            Err(e) => r == Err::<CreateClientTx, ClientTxError>(e),
        },
{
    let period = match params.trusting_period {
        Some(p) => p,
        None => {
            return Err(ClientTxError::ConfigError);
        },
    };
    let level = match params.trust_level {
        Some(l) => l,
        None => {
            return Err(ClientTxError::ConfigError);
        },
    };
    let algorithm = match params.proof_type {
        Some(a) => a,
        None => {
            return Err(ClientTxError::ConfigError);
        },
    };
    match crate::trust::derive(block, period, level, algorithm) {
        Ok((client, consensus)) => Ok(
            CreateClientTx {
                client_state: encode_client_state(&client),
                consensus_state: encode_consensus_state(&consensus),
                signer,
            },
        ),
        Err(e) => Err(derive_failure(e)),
    }
}

/// Whether a client still takes updates.
#[derive(Clone, Copy, Debug, PartialEq, Eq, Structural, Hash)]
pub enum ClientStatus {
    Active,
    Frozen,
}

/// A header as far as two of them are compared: where it stands and what it
/// hashes to.
#[derive(Clone, Copy, Debug, PartialEq, Eq)]
pub struct HeaderId {
    pub height: Height,
    pub hash: [u8; 32],
}

/// Two headers conflict when they stand at one height and differ.
pub open spec fn conflicting(a: HeaderId, b: HeaderId) -> bool {
    a.height == b.height && a.hash != b.hash
}

pub fn headers_conflict(a: &HeaderId, b: &HeaderId) -> (r: bool)
    ensures
        r == conflicting(*a, *b),
{
    a.height.revision == b.height.revision && a.height.block_number == b.height.block_number
        && !bytes32_eq(&a.hash, &b.hash)
}

/// The status of a client after a proof made by `program` was submitted for
/// it: misbehaviour freezes it, and a frozen client stays frozen.
pub open spec fn status_after(status: ClientStatus, program: ProofProgram) -> ClientStatus {
    if status == ClientStatus::Frozen || program == ProofProgram::Misbehaviour {
        ClientStatus::Frozen
    } else {
        ClientStatus::Active
    }
}

pub fn next_status(status: ClientStatus, program: ProofProgram) -> (r: ClientStatus)
    ensures
        r == status_after(status, program),
{
    match status {
        ClientStatus::Frozen => ClientStatus::Frozen,
        ClientStatus::Active => match program {
            ProofProgram::Misbehaviour => ClientStatus::Frozen,
            _ => ClientStatus::Active,
        },
    }
}

/// What is to be proved for a client update.
#[derive(Debug)]
pub struct UpdatePlan {
    pub client_id: String,
    pub program: ProofProgram,
    pub trusted: Height,
    pub target: Height,
}

/// The circuit and target of an update, or why there is none.
pub open spec fn update_outcome(
    status: ClientStatus,
    trusted: Height,
    latest: Height,
    conflict: bool,
) -> Result<(ProofProgram, Height), ClientTxError> {
    if status == ClientStatus::Frozen {
        Err(ClientTxError::ClientFrozen)
    } else if conflict {
        Ok((ProofProgram::Misbehaviour, trusted))
    } else if trusted.precedes(latest) {
        Ok((ProofProgram::UpdateClient, latest))
    } else {
        Err(ClientTxError::NoNewHeight)
    }
}

/// Plans the update of a client from what the caller has read: the client's
/// status and trusted height on the destination, the source chain's latest
/// height, and whether two conflicting headers have been seen.
///
/// An update targets the source's latest height, which must lie strictly
/// after the trusted one. Conflicting headers take the misbehaviour circuit
/// instead. A frozen client is refused either way.
pub fn update_client(
    dst_client_id: String,
    status: ClientStatus,
    trusted: Height,
    latest: Height,
    conflict: bool,
) -> (r: Result<UpdatePlan, ClientTxError>)
    ensures
        match update_outcome(status, trusted, latest, conflict) {
            Ok((program, target)) => r matches Ok(plan) && plan.program == program && plan.target
                == target && plan.trusted == trusted && plan.client_id == dst_client_id,
            Err(e) => r == Err::<UpdatePlan, ClientTxError>(e),
        },
{
    match status {
        ClientStatus::Frozen => {
            return Err(ClientTxError::ClientFrozen);
        },
        ClientStatus::Active => {},
    }
    if conflict {
        return Ok(
            UpdatePlan {
                client_id: dst_client_id,
                program: ProofProgram::Misbehaviour,
                trusted,
                target: trusted,
            },
        );
    }
    if !trusted.lt(&latest) {
        return Err(ClientTxError::NoNewHeight);
    }
    Ok(UpdatePlan { client_id: dst_client_id, program: ProofProgram::UpdateClient, trusted, target: latest })
}

/// The message that updates a client, or freezes it.
#[derive(Debug)]
pub struct UpdateClientTx {
    pub client_id: String,
    pub program: ProofProgram,
    pub target: Height,
    pub proof: ProofArtifact,
    pub signer: String,
}

/// Builds the update message from a plan and the proof made for it.
pub fn assemble_update_tx(plan: UpdatePlan, artifact: ProofArtifact, signer: String) -> (r: Result<
    UpdateClientTx,
    ClientTxError,
>)
    ensures
        (plan.program == ProofProgram::UpdateClient || plan.program == ProofProgram::Misbehaviour)
            ==> (r matches Ok(tx) && tx.client_id == plan.client_id && tx.program == plan.program
            && tx.target == plan.target && tx.proof == artifact && tx.signer == signer),
        !(plan.program == ProofProgram::UpdateClient || plan.program == ProofProgram::Misbehaviour)
            ==> r == Err::<UpdateClientTx, ClientTxError>(ClientTxError::ProgramMismatch),
{
    match plan.program {
        ProofProgram::UpdateClient => {},
        ProofProgram::Misbehaviour => {},
        _ => {
            return Err(ClientTxError::ProgramMismatch);
        },
    }
    Ok(
        UpdateClientTx {
            client_id: plan.client_id,
            program: plan.program,
            target: plan.target,
            proof: artifact,
            signer,
        },
    )
}

/// An update is planned only for a height strictly after the trusted one.
pub proof fn update_targets_later_height(
    status: ClientStatus,
    trusted: Height,
    latest: Height,
    conflict: bool,
)
    ensures
        update_outcome(status, trusted, latest, conflict) matches Ok((program, target)) ==> (program
            == ProofProgram::UpdateClient ==> trusted.precedes(target)),
        !conflict && status == ClientStatus::Active ==> (update_outcome(
            status,
            trusted,
            latest,
            conflict,
        ) is Ok <==> trusted.precedes(latest)),
{
}

/// For an active client without conflicting headers, the plan is what the
/// selection table gives for a request without key paths: the update-only
/// circuit, targeting the source's latest height, where that height lies
/// strictly after the trusted one, and nothing to prove where it does not.
pub proof fn update_agrees_with_selection(trusted: Height, latest: Height)
    ensures
        trusted.precedes(latest) ==> update_outcome(ClientStatus::Active, trusted, latest, false)
            == Ok::<(ProofProgram, Height), ClientTxError>((ProofProgram::UpdateClient, latest))
            && selected(update_needed(trusted, latest), false) == Ok::<ProofProgram, SelectError>(
            ProofProgram::UpdateClient,
        ),
        !trusted.precedes(latest) ==> update_outcome(ClientStatus::Active, trusted, latest, false)
            == Err::<(ProofProgram, Height), ClientTxError>(ClientTxError::NoNewHeight) && selected(
            update_needed(trusted, latest),
            false,
        ) == Err::<ProofProgram, SelectError>(SelectError::NothingToProve),
{
}

/// Freezing is final: whatever is submitted for a frozen client, it stays
/// frozen, and no update is planned for it.
pub proof fn frozen_is_terminal(program: ProofProgram, trusted: Height, latest: Height, conflict: bool)
    ensures
        status_after(ClientStatus::Frozen, program) == ClientStatus::Frozen,
        status_after(ClientStatus::Active, ProofProgram::Misbehaviour) == ClientStatus::Frozen,
        update_outcome(ClientStatus::Frozen, trusted, latest, conflict) == Err::<
            (ProofProgram, Height),
            ClientTxError,
        >(ClientTxError::ClientFrozen),
{
}

} // verus!
