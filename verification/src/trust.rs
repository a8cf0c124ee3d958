//! The trust anchor of a light client: how a trusted block and the trust
//! parameters become a client state and a consensus state.

use vstd::prelude::*;
use crate::height::Height;

verus! {

/// A ratio of two unsigned integers.
#[derive(Clone, Copy, Debug, PartialEq, Eq, Structural, Hash)]
pub struct Fraction {
    pub numerator: u64,
    pub denominator: u64,
}

impl Fraction {
    /// The ratio lies in the half-open interval (0, 1].
    pub open spec fn in_unit_interval(self) -> bool {
        0 < self.numerator && self.numerator <= self.denominator
    }

    pub fn new(numerator: u64, denominator: u64) -> (f: Fraction)
        ensures
            f.numerator == numerator,
            f.denominator == denominator,
    {
        Fraction { numerator, denominator }
    }

    /// Tests whether the ratio can serve as a trust level.
    pub fn is_trust_level(&self) -> (r: bool)
        ensures
            r == self.in_unit_interval(),
    {
        0 < self.numerator && self.numerator <= self.denominator
    }
}

/// The proof systems a client can be verified with.
#[derive(Clone, Copy, Debug, PartialEq, Eq, Structural, Hash)]
pub enum ProofAlgorithm {
    Groth16,
    Plonk,
}

/// What is read from the header of a trusted block.
#[derive(Clone, Copy, Debug, PartialEq, Eq)]
pub struct TrustedBlock {
    pub height: Height,
    /// Seconds since the Unix epoch.
    pub timestamp: u64,
    pub app_hash: [u8; 32],
    pub next_validators_hash: [u8; 32],
}

/// The mathematical content of a [`ClientState`].
pub struct ClientStateView {
    pub trusting_period: u64,
    pub trust_level: Fraction,
    pub latest_height: Height,
    pub proof_type: ProofAlgorithm,
}

/// The mathematical content of a [`ConsensusState`].
pub struct ConsensusStateView {
    pub timestamp: u64,
    pub commitment_root: [u8; 32],
    pub next_validators_hash: [u8; 32],
}

/// The parameters of a tracked counterparty client. A value never changes
/// once made.
#[derive(Clone, Copy, Debug, PartialEq, Eq)]
pub struct ClientState {
    trusting_period: u64,
    trust_level: Fraction,
    latest_height: Height,
    proof_type: ProofAlgorithm,
}

/// What is trusted of one height. A value never changes once made: an update
/// makes a new one.
#[derive(Clone, Copy, Debug, PartialEq, Eq)]
pub struct ConsensusState {
    timestamp: u64,
    commitment_root: [u8; 32],
    next_validators_hash: [u8; 32],
}

impl View for ClientState {
    type V = ClientStateView;

    closed spec fn view(&self) -> ClientStateView {
        ClientStateView {
            trusting_period: self.trusting_period,
            trust_level: self.trust_level,
            latest_height: self.latest_height,
            proof_type: self.proof_type,
        }
    }
}

impl View for ConsensusState {
    type V = ConsensusStateView;

    closed spec fn view(&self) -> ConsensusStateView {
        ConsensusStateView {
            timestamp: self.timestamp,
            commitment_root: self.commitment_root,
            next_validators_hash: self.next_validators_hash,
        }
    }
}

impl ClientState {
    /// A client state is well formed when its trust level lies in (0, 1].
    pub open spec fn wf(&self) -> bool {
        self@.trust_level.in_unit_interval()
    }

    pub fn trusting_period(&self) -> (r: u64)
        ensures
            r == self@.trusting_period,
    {
        self.trusting_period
    }

    pub fn trust_level(&self) -> (r: Fraction)
        ensures
            r == self@.trust_level,
    {
        self.trust_level
    }

    pub fn latest_height(&self) -> (r: Height)
        ensures
            r == self@.latest_height,
    {
        self.latest_height
    }

    pub fn proof_type(&self) -> (r: ProofAlgorithm)
        ensures
            r == self@.proof_type,
    {
        self.proof_type
    }
}

impl ConsensusState {
    pub fn new(timestamp: u64, commitment_root: [u8; 32], next_validators_hash: [u8; 32]) -> (r:
        ConsensusState)
        ensures
            r@ == (ConsensusStateView { timestamp, commitment_root, next_validators_hash }),
    {
        ConsensusState { timestamp, commitment_root, next_validators_hash }
    }

    pub fn timestamp(&self) -> (r: u64)
        ensures
            r == self@.timestamp,
    {
        self.timestamp
    }

    pub fn commitment_root(&self) -> (r: [u8; 32])
        ensures
            r == self@.commitment_root,
    {
        self.commitment_root
    }

    pub fn next_validators_hash(&self) -> (r: [u8; 32])
        ensures
            r == self@.next_validators_hash,
    {
        self.next_validators_hash
    }
}

/// Why no trust anchor was derived.
#[derive(Clone, Copy, Debug, PartialEq, Eq, Structural)]
pub enum DeriveError {
    /// The referenced block could not be had from the source chain.
    SourceUnavailable,
    /// The trust level is not a fraction in (0, 1].
    InvalidTrustLevel,
}

/// The client state that a block and the trust parameters determine.
pub open spec fn anchored_client(
    block: TrustedBlock,
    trusting_period: u64,
    trust_level: Fraction,
    proof_type: ProofAlgorithm,
) -> ClientStateView {
    ClientStateView { trusting_period, trust_level, latest_height: block.height, proof_type }
}

/// The consensus state that a block determines.
pub open spec fn anchored_consensus(block: TrustedBlock) -> ConsensusStateView {
    ConsensusStateView {
        timestamp: block.timestamp,
        commitment_root: block.app_hash,
        next_validators_hash: block.next_validators_hash,
    }
}

/// What [`derive`] returns, as a function of its inputs. A missing block is
/// reported before a bad trust level.
pub open spec fn derived(
    block: Option<TrustedBlock>,
    trusting_period: u64,
    trust_level: Fraction,
    proof_type: ProofAlgorithm,
) -> Result<(ClientStateView, ConsensusStateView), DeriveError> {
    match block {
        None => Err(DeriveError::SourceUnavailable),
        Some(b) => if trust_level.in_unit_interval() {
            Ok(
                (
                    anchored_client(b, trusting_period, trust_level, proof_type),
                    anchored_consensus(b),
                ),
            )
        } else {
            Err(DeriveError::InvalidTrustLevel)
        },
    }
}

/// Derives the trust anchor from the block that the caller fetched (`None`
/// when the fetch failed) and the trust parameters.
pub fn derive(
    block: Option<TrustedBlock>,
    trusting_period: u64,
    trust_level: Fraction,
    proof_type: ProofAlgorithm,
) -> (r: Result<(ClientState, ConsensusState), DeriveError>)
    ensures
        match derived(block, trusting_period, trust_level, proof_type) {
            Ok((client, consensus)) => r matches Ok((c, s)) && c@ == client && s@ == consensus
                && c.wf(),
            Err(e) => r == Err::<(ClientState, ConsensusState), DeriveError>(e),
        },
{
    match block {
        None => Err(DeriveError::SourceUnavailable),
        Some(b) => {
            if !trust_level.is_trust_level() {
                return Err(DeriveError::InvalidTrustLevel);
            }
            let client = ClientState {
                trusting_period,
                trust_level,
                latest_height: b.height,
                proof_type,
            };
            let consensus = ConsensusState {
                timestamp: b.timestamp,
                commitment_root: b.app_hash,
                next_validators_hash: b.next_validators_hash,
            };
            Ok((client, consensus))
        },
    }
}

/// Derivation is deterministic: equal inputs have equal outcomes, and an
/// outcome is an anchor exactly when a block is there and the trust level
/// lies in (0, 1].
pub proof fn derive_deterministic(
    block_a: Option<TrustedBlock>,
    block_b: Option<TrustedBlock>,
    trusting_period_a: u64,
    trusting_period_b: u64,
    trust_level_a: Fraction,
    trust_level_b: Fraction,
    proof_type_a: ProofAlgorithm,
    proof_type_b: ProofAlgorithm,
)
    requires
        block_a == block_b,
        trusting_period_a == trusting_period_b,
        trust_level_a == trust_level_b,
        proof_type_a == proof_type_b,
    ensures
        derived(block_a, trusting_period_a, trust_level_a, proof_type_a) == derived(
            block_b,
            trusting_period_b,
            trust_level_b,
            proof_type_b,
        ),
        derived(block_a, trusting_period_a, trust_level_a, proof_type_a) is Ok <==> block_a is Some
            && trust_level_a.in_unit_interval(),
{
}

} // verus!
