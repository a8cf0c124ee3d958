//! One membership proof from start to end, in the three steps between which
//! the caller talks to the source chain and to the prover: plan the fetch,
//! make the prover's request from what was fetched, and bundle the proof.

use vstd::prelude::*;
use vstd::utf8::encode_utf8;
use crate::abi::{bundle_encoding, encode_bundle};
use crate::bytes::segments;
use crate::height::Height;
use crate::path::{
    Fetched,
    FetchPlan,
    GatherError,
    PathError,
    encode_key_path,
    gather,
    key_path_of,
    matched,
    plan_fetch,
};
use crate::pipeline::{
    PipelineError,
    ProofInputs,
    ProverOutput,
    ProverRequest,
    assemble_request,
    conclude,
    concluded,
};
use crate::program::{ProofProgram, SelectError};
use crate::service::Failure;
use crate::trust::ConsensusState;

verus! {

/// The key path that the `i`-th textual path stands for.
pub open spec fn path_at(is_base64: bool, texts: Seq<String>, i: int) -> Result<
    Seq<Seq<u8>>,
    PathError,
> {
    key_path_of(is_base64, encode_utf8(texts[i]@))
}

/// Every textual path stands for a key path.
pub open spec fn all_paths_good(is_base64: bool, texts: Seq<String>) -> bool {
    forall|i: int| 0 <= i < texts.len() ==> (#[trigger] path_at(is_base64, texts, i)) is Ok
}

/// The `i`-th textual path is the first that stands for no key path, and `e`
/// is what is wrong with it.
pub open spec fn first_bad_path(is_base64: bool, texts: Seq<String>, i: int, e: PathError) -> bool {
    &&& 0 <= i < texts.len()
    &&& path_at(is_base64, texts, i) == Err::<Seq<Seq<u8>>, PathError>(e)
    &&& forall|j: int| 0 <= j < i ==> (#[trigger] path_at(is_base64, texts, j)) is Ok
}

/// Plans the fetch for a membership proof of the given textual paths at a
/// height. With no path there is nothing to prove. Otherwise every path is
/// turned into a key path, and the first that cannot be is reported; nothing
/// is asked of the source chain before all have passed.
pub fn plan_membership(is_base64: bool, key_paths: &Vec<String>, height: Height) -> (r: Result<
    FetchPlan,
    Failure,
>)
    ensures
        key_paths.len() == 0 ==> r matches Err(Failure::Select(SelectError::NothingToProve)),
        key_paths.len() > 0 && all_paths_good(is_base64, key_paths@) ==> (r matches Ok(plan)
            && plan.wf() && plan.height() == height && plan.paths().len() == key_paths.len()
            && forall|i: int|
            0 <= i < key_paths.len() ==> Ok::<Seq<Seq<u8>>, PathError>(#[trigger] plan.paths()[i])
                == path_at(is_base64, key_paths@, i)),
        key_paths.len() > 0 && !all_paths_good(is_base64, key_paths@) ==> (r matches Err(
            Failure::Path(e),
        ) && exists|i: int| first_bad_path(is_base64, key_paths@, i, e)),
{
    if key_paths.len() == 0 {
        return Err(Failure::Select(SelectError::NothingToProve));
    }
    let mut paths: Vec<Vec<Vec<u8>>> = Vec::new();
    let mut i: usize = 0;
    while i < key_paths.len()
        invariant
            i <= key_paths.len(),
            paths.len() == i,
            forall|j: int| 0 <= j < i ==> (#[trigger] path_at(is_base64, key_paths@, j)) is Ok,
            forall|j: int|
                0 <= j < i ==> Ok::<Seq<Seq<u8>>, PathError>(segments((#[trigger] paths@[j])@))
                    == path_at(is_base64, key_paths@, j),
            forall|j: int| 0 <= j < i ==> (#[trigger] paths@[j]).len() == 2,
        decreases key_paths.len() - i,
    {
        match encode_key_path(is_base64, key_paths[i].as_str().as_bytes()) {
            Ok(path) => {
                paths.push(path);
            },
            Err(e) => {
                assert(first_bad_path(is_base64, key_paths@, i as int, e));
                return Err(Failure::Path(e));
            },
        }
        i += 1;
    }
    match plan_fetch(paths, height) {
        Ok(plan) => Ok(plan),
        Err(e) => Err(Failure::Path(e)),
    }
}

/// Makes the prover's request for a membership proof from the plan and the
/// source chain's answers, which must be one for each key path, in order.
pub fn membership_request(plan: &FetchPlan, answers: Vec<Fetched>, trusted: &ConsensusState) -> (r:
    Result<ProverRequest, Failure>)
    ensures
        answers.len() != plan.paths().len() ==> r matches Err(
            Failure::Gather(GatherError::Incomplete),
        ),
        answers.len() == plan.paths().len() && answers.len() == 0 ==> r matches Err(
            Failure::Pipeline(PipelineError::InputMismatch),
        ),
        answers.len() == plan.paths().len() && answers.len() > 0 ==> (r matches Ok(request)
            && request.program == ProofProgram::Membership && request.trust_anchor@ == trusted@
            && request.inputs.header is None && request.inputs.conflicting_header is None
            && request.inputs.pairs.len() == answers.len() && forall|i: int|
            0 <= i < answers.len() ==> (#[trigger] request.inputs.pairs@[i])@ == matched(
                *plan,
                answers@,
                i,
            )),
{
    let pairs = match gather(plan, answers) {
        Ok(pairs) => pairs,
        Err(e) => {
            return Err(Failure::Gather(e));
        },
    };
    let inputs = ProofInputs { header: None, conflicting_header: None, pairs };
    match assemble_request(ProofProgram::Membership, trusted, inputs) {
        Ok(request) => Ok(request),
        Err(e) => Err(Failure::Pipeline(e)),
    }
}

/// Ends a membership proof: tests the prover's outcome as [`conclude`] does
/// and encodes the bundle of the proof and the consensus state it rests on.
pub fn bundle_membership(trusted: &ConsensusState, outcome: Option<ProverOutput>) -> (r: Result<
    Vec<u8>,
    Failure,
>)
    ensures
        match concluded(trusted@.commitment_root, outcome) {
            Ok(artifact) => r matches Ok(bytes) && bytes@ == bundle_encoding(
                artifact.verifying_key,
                artifact.public_values,
                artifact.raw_proof,
                trusted@.timestamp,
                trusted@.commitment_root,
                trusted@.next_validators_hash,
            ),
            Err(e) => r matches Err(Failure::Pipeline(f)) && f == e,
        },
{
    match conclude(trusted, outcome) {
        Ok(artifact) => {
            let (verifying_key, raw_proof, public_values) = artifact.into_parts();
            Ok(
                encode_bundle(
                    &verifying_key,
                    public_values.as_slice(),
                    raw_proof.as_slice(),
                    trusted,
                ),
            )
        },
        Err(e) => Err(Failure::Pipeline(e)),
    }
}

} // verus!
