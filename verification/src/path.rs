//! Key paths into the source chain's state: how a textual path becomes the
//! two byte strings (store name and key) that a proof is asked for, and how
//! the answers are matched to the questions.

use vstd::prelude::*;
use crate::bytes::{copy_bytes, copy_segments, segment_lists, segments, split_bytes, split_on};
use crate::height::Height;

verus! {

/// Why a key path was refused.
#[derive(Clone, Copy, Debug, PartialEq, Eq, Structural)]
pub enum PathError {
    /// The path does not have exactly two segments.
    InvalidPath,
    /// A segment is not valid Base64.
    InvalidEncoding,
}

/// The byte that separates the segments of a Base64 path: a backslash.
pub const SEGMENT_SEPARATOR: u8 = 0x5c;

/// The Base64 padding byte, `=`.
pub const PAD: u8 = 0x3d;

/// The store that plain (not Base64) paths live in: the bytes of `ibc`.
pub open spec fn default_store() -> Seq<u8> {
    seq![0x69u8, 0x62u8, 0x63u8]
}

/// Where the last group of up to four characters starts in a Base64 text of
/// `n > 0` bytes.
pub open spec fn last_group_start(n: int) -> int {
    4 * ((n - 1) / 4)
}

/// Padding, if any, stands only at the end of the last group of four, and
/// that group does not begin with it.
pub open spec fn well_padded(s: Seq<u8>) -> bool {
    s.len() == 0 || {
        let start = last_group_start(s.len() as int);
        &&& s[start] != PAD
        &&& forall|j: int, k: int| start <= j < k < s.len() && s[j] == PAD ==> s[k] == PAD
    }
}

/// The text is short enough for its decoded length to be computed.
pub open spec fn fits_decoder(s: Seq<u8>) -> bool {
    s.len() * 3 <= usize::MAX
}

/// What Base64 decoding makes of a text: the decoded bytes, or `None` where
/// the decoder rejects the text.
pub uninterp spec fn base64_decoded(encoded: Seq<u8>) -> Option<Seq<u8>>;

#[verifier::external_type_specification]
#[verifier::external_body]
pub struct ExBase64Error(subtle_encoding::Error);

/// Calls `subtle_encoding::base64::decode`. The contract only gives the
/// outcome a name, as a function of the text; nothing is claimed of which
/// texts are accepted. The text must be well padded and must fit the decoder:
/// on other texts the decoder's length arithmetic can go out of range.
#[verifier::external_body]
fn base64_decode(encoded: &[u8]) -> (r: Result<Vec<u8>, subtle_encoding::Error>)
    requires
        well_padded(encoded@),
        fits_decoder(encoded@),
    ensures
        match r {
            Ok(bytes) => base64_decoded(encoded@) == Some(bytes@),
            Err(_) => base64_decoded(encoded@) is None,
        },
{
    subtle_encoding::base64::decode(encoded)
}

/// Tests whether padding stands only where [`well_padded`] allows it.
pub fn is_well_padded(s: &[u8]) -> (r: bool)
    ensures
        r == well_padded(s@),
{
    let n = s.len();
    if n == 0 {
        return true;
    }
    let start: usize = 4 * ((n - 1) / 4);
    if s[start] == PAD {
        return false;
    }
    let mut seen_pad = false;
    let mut k: usize = start;
    while k < n
        invariant
            start <= k <= n,
            n == s@.len(),
            start == last_group_start(n as int),
            seen_pad <==> exists|j: int| start <= j < k && s@[j] == PAD,
            forall|j: int, m: int| start <= j < m < k && s@[j] == PAD ==> s@[m] == PAD,
        decreases n - k,
    {
        if s[k] == PAD {
            seen_pad = true;
        } else if seen_pad {
            return false;
        }
        k += 1;
    }
    true
}

/// What a Base64 segment decodes to: `None` where the text is badly padded,
/// too long, or rejected by the decoder.
pub open spec fn segment_decoded(piece: Seq<u8>) -> Option<Seq<u8>> {
    if well_padded(piece) && fits_decoder(piece) {
        base64_decoded(piece)
    } else {
        None
    }
}

/// Decodes one Base64 segment.
pub fn decode_segment(piece: &[u8]) -> (r: Result<Vec<u8>, PathError>)
    ensures
        match segment_decoded(piece@) {
            Some(bytes) => r matches Ok(v) && v@ == bytes,
            None => r == Err::<Vec<u8>, PathError>(PathError::InvalidEncoding),
        },
{
    if piece.len() > usize::MAX / 3 || !is_well_padded(piece) {
        return Err(PathError::InvalidEncoding);
    }
    match base64_decode(piece) {
        Ok(bytes) => Ok(bytes),
        Err(_) => Err(PathError::InvalidEncoding),
    }
}

/// The key path that a textual path stands for.
///
/// A plain path is a key in the default store. A Base64 path names store and
/// key itself, each in Base64, with a backslash between them; the number of
/// segments is tested before any segment is decoded.
pub open spec fn key_path_of(is_base64: bool, raw: Seq<u8>) -> Result<Seq<Seq<u8>>, PathError> {
    if !is_base64 {
        Ok(seq![default_store(), raw])
    } else {
        let pieces = split_on(raw, SEGMENT_SEPARATOR);
        if pieces.len() != 2 {
            Err(PathError::InvalidPath)
        } else {
            match (segment_decoded(pieces[0]), segment_decoded(pieces[1])) {
                (Some(store), Some(key)) => Ok(seq![store, key]),
                _ => Err(PathError::InvalidEncoding),
            }
        }
    }
}

/// Puts a key path together from its two segments as they came out of the
/// decoder, `None` standing for a segment that did not decode.
pub fn join_key_path(store: Option<Vec<u8>>, key: Option<Vec<u8>>) -> (r: Result<
    Vec<Vec<u8>>,
    PathError,
>)
    ensures
        match (store, key) {
            (Some(s), Some(k)) => r matches Ok(p) && segments(p@) == seq![s@, k@] && p.len() == 2,
            _ => r == Err::<Vec<Vec<u8>>, PathError>(PathError::InvalidEncoding),
        },
{
    match (store, key) {
        (Some(s), Some(k)) => {
            let ghost both = seq![s@, k@];
            let mut path: Vec<Vec<u8>> = Vec::new();
            path.push(s);
            path.push(k);
            assert(segments(path@) =~= both);
            Ok(path)
        },
        _ => Err(PathError::InvalidEncoding),
    }
}

/// Turns the bytes of a textual path into a key path.
pub fn encode_key_path(is_base64: bool, raw: &[u8]) -> (r: Result<Vec<Vec<u8>>, PathError>)
    ensures
        match key_path_of(is_base64, raw@) {
            Ok(path) => r matches Ok(p) && segments(p@) == path && p.len() == 2,
            Err(e) => r == Err::<Vec<Vec<u8>>, PathError>(e),
        },
{
    if !is_base64 {
        let mut store: Vec<u8> = Vec::new();
        store.push(0x69u8);
        store.push(0x62u8);
        store.push(0x63u8);
        assert(store@ =~= default_store());
        return join_key_path(Some(store), Some(copy_bytes(raw)));
    }
    let pieces = split_bytes(raw, SEGMENT_SEPARATOR);
    if pieces.len() != 2 {
        return Err(PathError::InvalidPath);
    }
    let store = match decode_segment(pieces[0].as_slice()) {
        Ok(v) => Some(v),
        Err(_) => None,
    };
    let key = match decode_segment(pieces[1].as_slice()) {
        Ok(v) => Some(v),
        Err(_) => None,
    };
    join_key_path(store, key)
}

/// Every path of the list has exactly two segments.
pub open spec fn all_binary(paths: Seq<Seq<Seq<u8>>>) -> bool {
    forall|i: int| 0 <= i < paths.len() ==> (#[trigger] paths[i]).len() == 2
}

/// The questions of one fetch: the key paths, each of two segments, and the
/// height at which they are asked. Only [`plan_fetch`] makes one, so holding
/// a plan means that every path has passed the test.
#[derive(Debug)]
pub struct FetchPlan {
    paths: Vec<Vec<Vec<u8>>>,
    height: Height,
}

impl FetchPlan {
    /// The key paths, in the order in which they were given.
    pub closed spec fn paths(&self) -> Seq<Seq<Seq<u8>>> {
        segment_lists(self.paths@)
    }

    /// The height at which the paths are to be proved.
    pub closed spec fn height(&self) -> Height {
        self.height
    }

    /// Every path of a plan has two segments.
    pub closed spec fn wf(&self) -> bool {
        all_binary(self.paths())
    }

    pub fn len(&self) -> (n: usize)
        ensures
            n == self.paths().len(),
    {
        self.paths.len()
    }

    pub fn is_empty(&self) -> (r: bool)
        ensures
            r == (self.paths().len() == 0),
    {
        self.paths.len() == 0
    }

    pub fn at_height(&self) -> (h: Height)
        ensures
            h == self.height(),
    {
        self.height
    }

    /// The `i`-th key path.
    pub fn path(&self, i: usize) -> (p: Vec<Vec<u8>>)
        requires
            i < self.paths().len(),
        ensures
            segments(p@) == self.paths()[i as int],
    {
        copy_segments(&self.paths[i])
    }
}

/// Tests the key paths of a fetch before anything is asked of the source
/// chain. A plan comes back exactly when every path has two segments; where
/// one has not, the answer is `InvalidPath` and there is no plan to act on.
pub fn plan_fetch(key_paths: Vec<Vec<Vec<u8>>>, height: Height) -> (r: Result<FetchPlan, PathError>)
    ensures
        all_binary(segment_lists(key_paths@)) ==> (r matches Ok(plan) && plan.wf() && plan.paths()
            == segment_lists(key_paths@) && plan.height() == height),
        !all_binary(segment_lists(key_paths@)) ==> r == Err::<FetchPlan, PathError>(
            PathError::InvalidPath,
        ),
{
    let mut i: usize = 0;
    while i < key_paths.len()
        invariant
            i <= key_paths.len(),
            forall|j: int| 0 <= j < i ==> (#[trigger] segment_lists(key_paths@)[j]).len() == 2,
        decreases key_paths.len() - i,
    {
        if key_paths[i].len() != 2 {
            assert(segment_lists(key_paths@)[i as int].len() != 2);
            return Err(PathError::InvalidPath);
        }
        i += 1;
    }
    Ok(FetchPlan { paths: key_paths, height })
}

/// A leaf of the source chain's state: a key path and the value under it.
#[derive(Debug)]
pub struct KVPair {
    pub path: Vec<Vec<u8>>,
    pub value: Vec<u8>,
}

/// The mathematical content of a [`KVPair`].
pub struct KVPairView {
    pub path: Seq<Seq<u8>>,
    pub value: Seq<u8>,
}

impl View for KVPair {
    type V = KVPairView;

    open spec fn view(&self) -> KVPairView {
        KVPairView { path: segments(self.path@), value: self.value@ }
    }
}

impl KVPair {
    pub fn duplicate(&self) -> (r: KVPair)
        ensures
            r@ == self@,
    {
        KVPair { path: copy_segments(&self.path), value: copy_bytes(self.value.as_slice()) }
    }
}

/// The contents of a list of pairs.
pub open spec fn pair_views(pairs: Seq<KVPair>) -> Seq<KVPairView> {
    Seq::new(pairs.len(), |i: int| pairs[i]@)
}

/// What the source chain answered for one key path: the value and the proof
/// of its inclusion.
#[derive(Debug)]
pub struct Fetched {
    pub value: Vec<u8>,
    pub proof: Vec<u8>,
}

/// A pair together with the proof of its inclusion at a height.
#[derive(Debug)]
pub struct ProvenPair {
    pub pair: KVPair,
    pub proof: Vec<u8>,
    pub height: Height,
}

/// The mathematical content of a [`ProvenPair`].
pub struct ProvenPairView {
    pub pair: KVPairView,
    pub proof: Seq<u8>,
    pub height: Height,
}

impl View for ProvenPair {
    type V = ProvenPairView;

    open spec fn view(&self) -> ProvenPairView {
        ProvenPairView { pair: self.pair@, proof: self.proof@, height: self.height }
    }
}

/// Why the answers of a fetch could not be matched to its questions.
#[derive(Clone, Copy, Debug, PartialEq, Eq, Structural)]
pub enum GatherError {
    /// There is not one answer for each key path.
    Incomplete,
}

/// The answer for the `i`-th key path of a plan.
pub open spec fn matched(plan: FetchPlan, answers: Seq<Fetched>, i: int) -> ProvenPairView {
    ProvenPairView {
        pair: KVPairView { path: plan.paths()[i], value: answers[i].value@ },
        proof: answers[i].proof@,
        height: plan.height(),
    }
}

/// Matches the answers of a fetch, given in the order of the plan's key
/// paths, to those paths. The result has one entry per path, under that
/// path, in the same order; it fails exactly when the number of answers is
/// not the number of paths.
pub fn gather(plan: &FetchPlan, answers: Vec<Fetched>) -> (r: Result<Vec<ProvenPair>, GatherError>)
    ensures
        answers.len() == plan.paths().len() ==> (r matches Ok(out) && out.len() == answers.len()
            && forall|i: int|
            0 <= i < out.len() ==> (#[trigger] out@[i])@ == matched(*plan, answers@, i)),
        answers.len() != plan.paths().len() ==> r == Err::<Vec<ProvenPair>, GatherError>(
            GatherError::Incomplete,
        ),
{
    if answers.len() != plan.paths.len() {
        return Err(GatherError::Incomplete);
    }
    let mut out: Vec<ProvenPair> = Vec::new();
    let mut i: usize = 0;
    while i < answers.len()
        invariant
            i <= answers.len(),
            answers.len() == plan.paths.len(),
            out.len() == i,
            forall|j: int| 0 <= j < i ==> (#[trigger] out@[j])@ == matched(*plan, answers@, j),
        decreases answers.len() - i,
    {
        let pair = KVPair {
            path: copy_segments(&plan.paths[i]),
            value: copy_bytes(answers[i].value.as_slice()),
        };
        let item = ProvenPair {
            pair,
            proof: copy_bytes(answers[i].proof.as_slice()),
            height: plan.height,
        };
        out.push(item);
        i += 1;
    }
    Ok(out)
}

/// An answer of the source chain as it arrives, with the position of its key
/// path in the plan.
#[derive(Debug)]
pub struct Arrival {
    pub index: usize,
    pub answer: Fetched,
}

/// The `k`-th arrival answers the `i`-th key path.
pub open spec fn answers_path(arrivals: Seq<Arrival>, i: int, k: int) -> bool {
    0 <= k < arrivals.len() && arrivals[k].index == i
}

/// Some arrival answers the `i`-th key path.
pub open spec fn answered(arrivals: Seq<Arrival>, i: int) -> bool {
    exists|k: int| #[trigger] answers_path(arrivals, i, k)
}

/// The arrivals answer each of `n` key paths exactly once: every position
/// lies below `n`, no position occurs twice, and none is missing.
pub open spec fn is_arrangement(arrivals: Seq<Arrival>, n: nat) -> bool {
    &&& forall|k: int| 0 <= k < arrivals.len() ==> (#[trigger] arrivals[k]).index < n
    &&& forall|k1: int, k2: int|
        0 <= k1 < k2 < arrivals.len() ==> (#[trigger] arrivals[k1]).index != (
        #[trigger] arrivals[k2]).index
    &&& forall|i: int| 0 <= i < n ==> #[trigger] answered(arrivals, i)
}

/// The entry for the `i`-th key path of a plan, made of one answer.
pub open spec fn matched_answer(plan: FetchPlan, i: int, answer: Fetched) -> ProvenPairView {
    ProvenPairView {
        pair: KVPairView { path: plan.paths()[i], value: answer.value@ },
        proof: answer.proof@,
        height: plan.height(),
    }
}

/// Matches answers that arrived in any order to the key paths of the plan.
/// The result is in the order of the plan, whatever the order of arrival; it
/// fails exactly when the arrivals do not answer each key path once.
pub fn gather_unordered(plan: &FetchPlan, arrivals: Vec<Arrival>) -> (r: Result<
    Vec<ProvenPair>,
    GatherError,
>)
    ensures
        is_arrangement(arrivals@, plan.paths().len()) ==> (r matches Ok(out) && out.len()
            == plan.paths().len() && forall|i: int, k: int|
            0 <= i < out.len() && #[trigger] answers_path(arrivals@, i, k) ==> (
            #[trigger] out@[i])@ == matched_answer(*plan, i, arrivals@[k].answer)),
        !is_arrangement(arrivals@, plan.paths().len()) ==> r == Err::<Vec<ProvenPair>, GatherError>(
            GatherError::Incomplete,
        ),
{
    let n = plan.paths.len();
    let mut slots: Vec<Option<usize>> = Vec::new();
    let mut i: usize = 0;
    while i < n
        invariant
            i <= n,
            slots.len() == i,
            forall|j: int| 0 <= j < i ==> slots@[j] is None,
        decreases n - i,
    {
        slots.push(None);
        i += 1;
    }
    let mut k: usize = 0;
    while k < arrivals.len()
        invariant
            k <= arrivals.len(),
            n == plan.paths().len(),
            slots.len() == n,
            forall|j: int| 0 <= j < k ==> (#[trigger] arrivals@[j]).index < n,
            forall|k1: int, k2: int|
                0 <= k1 < k2 < k ==> (#[trigger] arrivals@[k1]).index != (
                #[trigger] arrivals@[k2]).index,
            forall|j: int|
                0 <= j < n ==> match #[trigger] slots@[j] {
                    Some(at) => at < k && arrivals@[at as int].index == j,
                    None => forall|m: int| 0 <= m < k ==> (#[trigger] arrivals@[m]).index != j,
                },
        decreases arrivals.len() - k,
    {
        let index = arrivals[k].index;
        if index >= n {
            return Err(GatherError::Incomplete);
        }
        match slots[index] {
            Some(_) => {
                return Err(GatherError::Incomplete);
            },
            None => {},
        }
        slots.set(index, Some(k));
        k += 1;
    }
    let mut out: Vec<ProvenPair> = Vec::new();
    let mut i: usize = 0;
    while i < n
        invariant
            i <= n,
            n == plan.paths().len(),
            n == plan.paths.len(),
            slots.len() == n,
            out.len() == i,
            forall|j: int|
                0 <= j < n ==> match #[trigger] slots@[j] {
                    Some(at) => at < arrivals.len() && arrivals@[at as int].index == j,
                    None => forall|m: int|
                        0 <= m < arrivals.len() ==> (#[trigger] arrivals@[m]).index != j,
                },
            forall|j: int| 0 <= j < i ==> slots@[j] is Some,
            forall|j: int|
                0 <= j < i ==> (#[trigger] out@[j])@ == matched_answer(
                    *plan,
                    j,
                    arrivals@[slots@[j]->0 as int].answer,
                ),
        decreases n - i,
    {
        match slots[i] {
            None => {
                assert(!answered(arrivals@, i as int));
                return Err(GatherError::Incomplete);
            },
            Some(at) => {
                let answer = &arrivals[at].answer;
                let item = ProvenPair {
                    pair: KVPair {
                        path: copy_segments(&plan.paths[i]),
                        value: copy_bytes(answer.value.as_slice()),
                    },
                    proof: copy_bytes(answer.proof.as_slice()),
                    height: plan.height,
                };
                out.push(item);
            },
        }
        i += 1;
    }
    proof {
        assert forall|j: int| 0 <= j < n implies #[trigger] answered(arrivals@, j) by {
            assert(answers_path(arrivals@, j, slots@[j]->0 as int));
        }
    }
    Ok(out)
}

} // verus!
