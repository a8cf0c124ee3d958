//! The relayer service as the transport sees it: requests are tested for
//! their shape, and every failure leaves as a status that tells its kind.

use vstd::prelude::*;
use vstd::string::StringExecFns;
use crate::bytes::{copy_bytes, segments};
use crate::client::ClientTxError;
use crate::path::{GatherError, PathError};
use crate::pipeline::PipelineError;
use crate::program::SelectError;
use crate::relay::RelayError;

verus! {

/// The four kinds of failure.
#[derive(Clone, Copy, Debug, PartialEq, Eq, Structural, Hash)]
pub enum ErrorKind {
    /// A chain or the prover could not be reached. The caller may try again.
    Transport,
    /// Something given or received is malformed.
    Parse,
    /// A proof's output contradicts what is trusted.
    Integrity,
    /// An expected negative outcome of the relayer's own rules.
    Domain,
}

/// The status codes that failures leave with.
#[derive(Clone, Copy, Debug, PartialEq, Eq, Structural, Hash)]
pub enum StatusCode {
    Unavailable,
    InvalidArgument,
    DataLoss,
    FailedPrecondition,
}

/// Every failure that a request can end in.
#[derive(Debug)]
pub enum Failure {
    /// A chain did not answer; with what its client said.
    Chain(String),
    /// A transaction identifier is not 32 bytes long.
    InvalidTxId,
    /// The parameters of a request are not a well-formed document.
    InvalidParameters,
    Path(PathError),
    Select(SelectError),
    Gather(GatherError),
    Pipeline(PipelineError),
    Relay(RelayError),
    Client(ClientTxError),
}

/// The kind of each failure.
pub open spec fn kind_of(f: Failure) -> ErrorKind {
    match f {
        Failure::Chain(_) => ErrorKind::Transport,
        Failure::InvalidTxId => ErrorKind::Parse,
        Failure::InvalidParameters => ErrorKind::Parse,
        Failure::Path(_) => ErrorKind::Parse,
        Failure::Select(_) => ErrorKind::Domain,
        Failure::Gather(_) => ErrorKind::Transport,
        Failure::Pipeline(PipelineError::ProverUnavailable) => ErrorKind::Transport,
        Failure::Pipeline(PipelineError::MalformedOutput) => ErrorKind::Parse,
        Failure::Pipeline(PipelineError::ProofIntegrityViolation) => ErrorKind::Integrity,
        Failure::Pipeline(PipelineError::InputMismatch) => ErrorKind::Domain,
        Failure::Relay(_) => ErrorKind::Domain,
        Failure::Client(ClientTxError::SourceUnavailable) => ErrorKind::Transport,
        Failure::Client(_) => ErrorKind::Domain,
    }
}

/// The status code of each kind.
pub open spec fn code_of(kind: ErrorKind) -> StatusCode {
    match kind {
        ErrorKind::Transport => StatusCode::Unavailable,
        ErrorKind::Parse => StatusCode::InvalidArgument,
        ErrorKind::Integrity => StatusCode::DataLoss,
        ErrorKind::Domain => StatusCode::FailedPrecondition,
    }
}

/// The word that names a kind in a status message.
pub open spec fn tag_of(kind: ErrorKind) -> Seq<char> {
    match kind {
        ErrorKind::Transport => "transport"@,
        ErrorKind::Parse => "parse"@,
        ErrorKind::Integrity => "integrity"@,
        ErrorKind::Domain => "domain"@,
    }
}

/// What a status message says of a failure, after the kind.
pub open spec fn description_of(f: Failure) -> Seq<char> {
    match f {
        Failure::Chain(text) => text@,
        Failure::InvalidTxId => "invalid transaction id"@,
        Failure::InvalidParameters => "invalid parameters"@,
        Failure::Path(PathError::InvalidPath) => "invalid path"@,
        Failure::Path(PathError::InvalidEncoding) => "invalid path encoding"@,
        Failure::Select(SelectError::NothingToProve) => "nothing to prove"@,
        Failure::Gather(GatherError::Incomplete) => "incomplete proof fetch"@,
        Failure::Pipeline(PipelineError::ProverUnavailable) => "prover unavailable"@,
        Failure::Pipeline(PipelineError::MalformedOutput) => "malformed proof output"@,
        Failure::Pipeline(PipelineError::ProofIntegrityViolation) => "proof integrity violation"@,
        Failure::Pipeline(PipelineError::InputMismatch) => "proof input mismatch"@,
        Failure::Relay(RelayError::UnknownSequence) => "unknown packet sequence"@,
        Failure::Relay(RelayError::NoRelayablePackets) => "no relayable packets"@,
        Failure::Relay(RelayError::ProgramMismatch) => "proof program mismatch"@,
        Failure::Client(ClientTxError::ConfigError) => "config error"@,
        Failure::Client(ClientTxError::SourceUnavailable) => "source unavailable"@,
        Failure::Client(ClientTxError::InvalidTrustLevel) => "invalid trust level"@,
        Failure::Client(ClientTxError::NoNewHeight) => "no new height"@,
        Failure::Client(ClientTxError::ClientFrozen) => "client frozen"@,
        Failure::Client(ClientTxError::ProgramMismatch) => "proof program mismatch"@,
        Failure::Client(ClientTxError::UpdateInFlight) => "update in flight"@,
    }
}

/// The message of a failure's status: the kind's tag, a colon and a space,
/// and the description.
pub open spec fn message_of(f: Failure) -> Seq<char> {
    tag_of(kind_of(f)) + ": "@ + description_of(f)
}

/// What a failed request answers.
#[derive(Debug)]
pub struct Status {
    pub code: StatusCode,
    pub message: String,
}

impl Failure {
    pub fn kind(&self) -> (r: ErrorKind)
        ensures
            r == kind_of(*self),
    {
        match self {
            Failure::Chain(_) => ErrorKind::Transport,
            Failure::InvalidTxId => ErrorKind::Parse,
            Failure::InvalidParameters => ErrorKind::Parse,
            Failure::Path(_) => ErrorKind::Parse,
            Failure::Select(_) => ErrorKind::Domain,
            Failure::Gather(_) => ErrorKind::Transport,
            Failure::Pipeline(PipelineError::ProverUnavailable) => ErrorKind::Transport,
            Failure::Pipeline(PipelineError::MalformedOutput) => ErrorKind::Parse,
            Failure::Pipeline(PipelineError::ProofIntegrityViolation) => ErrorKind::Integrity,
            Failure::Pipeline(PipelineError::InputMismatch) => ErrorKind::Domain,
            Failure::Relay(_) => ErrorKind::Domain,
            Failure::Client(ClientTxError::SourceUnavailable) => ErrorKind::Transport,
            Failure::Client(_) => ErrorKind::Domain,
        }
    }

    pub fn description(&self) -> (r: String)
        ensures
            r@ == description_of(*self),
    {
        match self {
            Failure::Chain(text) => text.clone(),
            Failure::InvalidTxId => String::from_str("invalid transaction id"),
            Failure::InvalidParameters => String::from_str("invalid parameters"),
            Failure::Path(PathError::InvalidPath) => String::from_str("invalid path"),
            Failure::Path(PathError::InvalidEncoding) => String::from_str("invalid path encoding"),
            Failure::Select(SelectError::NothingToProve) => String::from_str("nothing to prove"),
            Failure::Gather(GatherError::Incomplete) => String::from_str("incomplete proof fetch"),
            Failure::Pipeline(PipelineError::ProverUnavailable) => String::from_str(
                "prover unavailable",
            ),
            Failure::Pipeline(PipelineError::MalformedOutput) => String::from_str(
                "malformed proof output",
            ),
            Failure::Pipeline(PipelineError::ProofIntegrityViolation) => String::from_str(
                "proof integrity violation",
            ),
            Failure::Pipeline(PipelineError::InputMismatch) => String::from_str(
                "proof input mismatch",
            ),
            Failure::Relay(RelayError::UnknownSequence) => String::from_str(
                "unknown packet sequence",
            ),
            Failure::Relay(RelayError::NoRelayablePackets) => String::from_str(
                "no relayable packets",
            ),
            Failure::Relay(RelayError::ProgramMismatch) => String::from_str(
                "proof program mismatch",
            ),
            Failure::Client(ClientTxError::ConfigError) => String::from_str("config error"),
            Failure::Client(ClientTxError::SourceUnavailable) => String::from_str(
                "source unavailable",
            ),
            Failure::Client(ClientTxError::InvalidTrustLevel) => String::from_str(
                "invalid trust level",
            ),
            Failure::Client(ClientTxError::NoNewHeight) => String::from_str("no new height"),
            Failure::Client(ClientTxError::ClientFrozen) => String::from_str("client frozen"),
            Failure::Client(ClientTxError::ProgramMismatch) => String::from_str(
                "proof program mismatch",
            ),
            Failure::Client(ClientTxError::UpdateInFlight) => String::from_str("update in flight"),
        }
    }

    /// The status that the failure leaves with: the code of its kind, and a
    /// message that names the kind and says what failed.
    pub fn to_status(&self) -> (r: Status)
        ensures
            r.code == code_of(kind_of(*self)),
            r.message@ == message_of(*self),
    {
        let kind = self.kind();
        let mut message = match kind {
            ErrorKind::Transport => String::from_str("transport"),
            ErrorKind::Parse => String::from_str("parse"),
            ErrorKind::Integrity => String::from_str("integrity"),
            ErrorKind::Domain => String::from_str("domain"),
        };
        message.append(": ");
        let description = self.description();
        message.append(description.as_str());
        Status { code: status_code(kind), message }
    }
}

pub fn status_code(kind: ErrorKind) -> (r: StatusCode)
    ensures
        r == code_of(kind),
{
    match kind {
        ErrorKind::Transport => StatusCode::Unavailable,
        ErrorKind::Parse => StatusCode::InvalidArgument,
        ErrorKind::Integrity => StatusCode::DataLoss,
        ErrorKind::Domain => StatusCode::FailedPrecondition,
    }
}

/// Only transport failures are worth another try; an integrity violation
/// never is, and its status differs from every other kind's.
pub proof fn kinds_keep_apart(f: Failure)
    ensures
        kind_of(f) == ErrorKind::Integrity <==> f == Failure::Pipeline(
            PipelineError::ProofIntegrityViolation,
        ),
        code_of(kind_of(f)) == StatusCode::DataLoss <==> kind_of(f) == ErrorKind::Integrity,
        code_of(kind_of(f)) == StatusCode::Unavailable <==> kind_of(f) == ErrorKind::Transport,
        f matches Failure::Pipeline(e) ==> (e.retryable() <==> kind_of(f) == ErrorKind::Transport),
{
}

/// A hash as the chain's client knows it: a SHA-256 digest, or nothing. The
/// identifier of a transaction is always a digest.
#[derive(Clone, Copy, Debug, PartialEq, Eq)]
pub enum TxHash {
    Sha256([u8; 32]),
    Empty,
}

/// The bytes of a hash.
pub open spec fn hash_bytes(h: TxHash) -> Seq<u8> {
    match h {
        TxHash::Sha256(digest) => digest@,
        TxHash::Empty => Seq::empty(),
    }
}

/// Bytes are a transaction identifier when there are thirty-two of them.
pub open spec fn is_tx_id(bytes: Seq<u8>) -> bool {
    bytes.len() == 32
}

#[verifier::external_type_specification]
#[verifier::external_body]
pub struct ExTendermintError(tendermint::Error);

/// Calls `tendermint::Hash::try_from` on a byte vector. The contract says
/// what the source shows: no bytes give the empty hash, thirty-two bytes give
/// the digest made of them, and every other length is an error.
#[verifier::external_body]
fn hash_from_bytes(bytes: Vec<u8>) -> (r: Result<TxHash, tendermint::Error>)
    ensures
        match r {
            Ok(TxHash::Empty) => bytes@.len() == 0,
            Ok(TxHash::Sha256(digest)) => bytes@.len() == 32 && digest@ == bytes@,
            Err(_) => bytes@.len() != 0 && bytes@.len() != 32,
        },
{
    match tendermint::Hash::try_from(bytes) {
        Ok(tendermint::Hash::Sha256(digest)) => Ok(TxHash::Sha256(digest)),
        Ok(tendermint::Hash::None) => Ok(TxHash::Empty),
        Err(e) => Err(e),
    }
}

/// Every entry of the list is a transaction identifier.
pub open spec fn all_tx_ids(ids: Seq<Seq<u8>>) -> bool {
    forall|i: int| 0 <= i < ids.len() ==> is_tx_id(#[trigger] ids[i])
}

/// Every hash of the list is the digest made of the bytes at its place.
pub open spec fn digests_of(hashes: Seq<TxHash>, ids: Seq<Vec<u8>>) -> bool {
    &&& hashes.len() == ids.len()
    &&& forall|i: int|
        0 <= i < hashes.len() ==> (#[trigger] hashes[i]) is Sha256 && hash_bytes(hashes[i])
            == ids[i]@
}

/// Decodes a list of transaction identifiers. It succeeds exactly when every
/// entry is 32 bytes long; the hashes are then the digests made of the
/// entries' bytes, in order. An entry without bytes is no identifier, though
/// the chain's client would take it for the empty hash.
pub fn decode_tx_ids(ids: &Vec<Vec<u8>>) -> (r: Result<Vec<TxHash>, Failure>)
    ensures
        all_tx_ids(segments(ids@)) ==> (r matches Ok(hashes) && digests_of(hashes@, ids@)),
        !all_tx_ids(segments(ids@)) ==> r matches Err(Failure::InvalidTxId),
{
    let mut hashes: Vec<TxHash> = Vec::new();
    let mut i: usize = 0;
    while i < ids.len()
        invariant
            i <= ids.len(),
            hashes.len() == i,
            forall|j: int| 0 <= j < i ==> is_tx_id(#[trigger] segments(ids@)[j]),
            forall|j: int|
                0 <= j < i ==> (#[trigger] hashes@[j]) is Sha256 && hash_bytes(hashes@[j])
                    == ids@[j]@,
        decreases ids.len() - i,
    {
        assert(segments(ids@)[i as int] == ids@[i as int]@);
        match hash_from_bytes(copy_bytes(ids[i].as_slice())) {
            Ok(TxHash::Sha256(digest)) => {
                hashes.push(TxHash::Sha256(digest));
            },
            Ok(TxHash::Empty) => {
                return Err(Failure::InvalidTxId);
            },
            Err(_) => {
                return Err(Failure::InvalidTxId);
            },
        }
        i += 1;
    }
    Ok(hashes)
}

/// A request to relay the packets of given transactions.
#[derive(Debug)]
pub struct RelayByTxRequest {
    pub source_tx_ids: Vec<Vec<u8>>,
    pub timeout_tx_ids: Vec<Vec<u8>>,
    pub src_client_id: String,
    pub dst_client_id: String,
    pub src_packet_sequences: Vec<u64>,
    pub dst_packet_sequences: Vec<u64>,
}

/// The transactions whose events a relay request asks for: those on the
/// source chain and those on the destination chain.
#[derive(Debug)]
pub struct EventLookup {
    pub source_txs: Vec<TxHash>,
    pub timeout_txs: Vec<TxHash>,
}

/// Tests the shape of a relay request before anything is fetched: each of
/// its transaction identifiers must be 32 bytes long. The source identifiers
/// are tested first.
pub fn relay_by_tx(request: &RelayByTxRequest) -> (r: Result<EventLookup, Status>)
    ensures
        (all_tx_ids(segments(request.source_tx_ids@)) && all_tx_ids(
            segments(request.timeout_tx_ids@),
        )) ==> (r matches Ok(lookup) && digests_of(lookup.source_txs@, request.source_tx_ids@)
            && digests_of(lookup.timeout_txs@, request.timeout_tx_ids@)),
        !(all_tx_ids(segments(request.source_tx_ids@)) && all_tx_ids(
            segments(request.timeout_tx_ids@),
        )) ==> (r matches Err(status) && status.code == StatusCode::InvalidArgument
            && status.message@ == message_of(Failure::InvalidTxId)),
{
    let source_txs = match decode_tx_ids(&request.source_tx_ids) {
        Ok(hashes) => hashes,
        Err(f) => {
            return Err(f.to_status());
        },
    };
    let timeout_txs = match decode_tx_ids(&request.timeout_tx_ids) {
        Ok(hashes) => hashes,
        Err(f) => {
            return Err(f.to_status());
        },
    };
    Ok(EventLookup { source_txs, timeout_txs })
}

/// What is said of one chain in answer to an information request.
#[derive(Debug)]
pub struct Chain {
    pub chain_id: String,
    pub ibc_version: String,
    pub ibc_contract: String,
}

/// The answer to an information request.
#[derive(Debug)]
pub struct InfoResponse {
    pub target_chain: Chain,
    pub source_chain: Chain,
}

/// Answers an information request from what the two chains reported as
/// their identifiers (`Err` with the client's message where a chain did not
/// answer). The identifiers are passed on as they are; the target chain's
/// failure is reported before the source chain's. No proof is involved.
pub fn info(target_chain_id: Result<String, String>, source_chain_id: Result<String, String>) -> (r:
    Result<InfoResponse, Status>)
    ensures
        match (target_chain_id, source_chain_id) {
            (Ok(target), Ok(source)) => r matches Ok(response) && response.target_chain.chain_id
                == target && response.source_chain.chain_id == source
                && response.target_chain.ibc_version@ == "2"@
                && response.source_chain.ibc_version@ == "2"@
                && response.target_chain.ibc_contract@ == Seq::<char>::empty()
                && response.source_chain.ibc_contract@ == Seq::<char>::empty(),
            (Err(text), _) => r matches Err(status) && status.code == StatusCode::Unavailable
                && status.message@ == message_of(Failure::Chain(text)),
            (Ok(_), Err(text)) => r matches Err(status) && status.code == StatusCode::Unavailable
                && status.message@ == message_of(Failure::Chain(text)),
        },
{
    let target = match target_chain_id {
        Ok(id) => id,
        Err(text) => {
            return Err(Failure::Chain(text).to_status());
        },
    };
    let source = match source_chain_id {
        Ok(id) => id,
        Err(text) => {
            return Err(Failure::Chain(text).to_status());
        },
    };
    Ok(
        InfoResponse {
            target_chain: Chain {
                chain_id: target,
                ibc_version: String::from_str("2"),
                ibc_contract: String::new(),
            },
            source_chain: Chain {
                chain_id: source,
                ibc_version: String::from_str("2"),
                ibc_contract: String::new(),
            },
        },
    )
}

/// The answer to a request that asks for a transaction: the unsigned
/// transaction's bytes, and an address, which this relayer leaves empty.
#[derive(Debug)]
pub struct TxResponse {
    pub tx: Vec<u8>,
    pub address: String,
}

/// Wraps the outcome of building a transaction into the answer for the
/// transport: the bytes as they are, or the status of the failure.
pub fn respond(outcome: Result<Vec<u8>, Failure>) -> (r: Result<TxResponse, Status>)
    ensures
        match outcome {
            Ok(tx) => r matches Ok(response) && response.tx == tx && response.address@
                == Seq::<char>::empty(),
            Err(f) => r matches Err(status) && status.code == code_of(kind_of(f))
                && status.message@ == message_of(f),
        },
{
    match outcome {
        Ok(tx) => Ok(TxResponse { tx, address: String::new() }),
        Err(f) => Err(f.to_status()),
    }
}

} // verus!
