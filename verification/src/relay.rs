//! Correlation of the two chains' events into the packets to relay, and the
//! transaction that carries them.
//!
//! A packet that the source sent is relayed unless the destination has
//! received or acknowledged it. It is relayed once, however many events
//! report its sending: as a timeout if the destination reports its timeout,
//! as a receive otherwise. The sequence numbers that a request names are
//! hints: they narrow the events that are looked at, and each of them must
//! occur among the fetched events.

use vstd::prelude::*;
use vstd::string::StrSliceExecFns;
use vstd::utf8::encode_utf8;
use crate::bytes::{append_bytes, be_bytes, segment_lists, segments, u64_be_bytes, copy_bytes};
use crate::events::{
    EventKind,
    IbcEvent,
    admitted,
    delivered,
    in_timeout_window,
    is_admitted,
    mentioned,
    sent,
    was_mentioned,
    was_sent,
    was_sighted,
};
use crate::height::Height;
use crate::path::{all_binary, default_store};
use crate::pipeline::ProofArtifact;
use crate::program::{ProofProgram, SelectError, selected, update_needed};

verus! {

/// What is to be done with a packet on the destination.
#[derive(Clone, Copy, Debug, PartialEq, Eq, Structural, Hash)]
pub enum PacketAction {
    Receive,
    Timeout,
}

/// One packet message of a relay transaction.
#[derive(Debug)]
pub struct PacketMsg {
    pub action: PacketAction,
    pub src_client: String,
    pub dst_client: String,
    pub sequence: u64,
    pub payload: Vec<u8>,
}

/// The mathematical content of a [`PacketMsg`].
pub struct PacketMsgView {
    pub action: PacketAction,
    pub src_client: Seq<char>,
    pub dst_client: Seq<char>,
    pub sequence: u64,
    pub payload: Seq<u8>,
}

impl View for PacketMsg {
    type V = PacketMsgView;

    open spec fn view(&self) -> PacketMsgView {
        PacketMsgView {
            action: self.action,
            src_client: self.src_client@,
            dst_client: self.dst_client@,
            sequence: self.sequence,
            payload: self.payload@,
        }
    }
}

/// The contents of a list of messages.
pub open spec fn message_views(messages: Seq<PacketMsg>) -> Seq<PacketMsgView> {
    Seq::new(messages.len(), |i: int| messages[i]@)
}

/// Why no relay transaction was planned or built.
#[derive(Clone, Copy, Debug, PartialEq, Eq, Structural)]
pub enum RelayError {
    /// A sequence number named in the request does not occur among the
    /// fetched events.
    UnknownSequence,
    /// After correlation no packet is left to relay.
    NoRelayablePackets,
    /// The proof was made by a circuit that proves no membership.
    ProgramMismatch,
}

/// What the source events are correlated against: the destination's events,
/// the two client identifiers and the two lists of hints.
pub struct Setting {
    pub destination: Seq<IbcEvent>,
    pub src_client: Seq<char>,
    pub dst_client: Seq<char>,
    pub src_hints: Seq<u64>,
    pub dst_hints: Seq<u64>,
}

/// The source event is a send of the request's source client that the hints
/// admit.
pub open spec fn considered(e: IbcEvent, s: Setting) -> bool {
    e.kind == EventKind::PacketSend && e.client_id@ == s.src_client && admitted(
        s.src_hints,
        e.sequence,
    )
}

/// What is to be done for one source event: nothing, a receive or a timeout.
pub open spec fn verdict(e: IbcEvent, s: Setting) -> Option<PacketAction> {
    if !considered(e, s) || delivered(s.destination, s.dst_client, s.dst_hints, e.sequence) {
        None
    } else if in_timeout_window(s.destination, s.dst_client, s.dst_hints, e.sequence) {
        Some(PacketAction::Timeout)
    } else {
        Some(PacketAction::Receive)
    }
}

/// The message that relays the packet of a source event.
pub open spec fn message_for(e: IbcEvent, action: PacketAction, s: Setting) -> PacketMsgView {
    PacketMsgView {
        action,
        src_client: s.src_client,
        dst_client: s.dst_client,
        sequence: e.sequence,
        payload: e.raw_payload@,
    }
}

/// The packet of the last event of the list was already sent by an earlier
/// event of the list.
pub open spec fn repeats(source: Seq<IbcEvent>, s: Setting) -> bool {
    sent(source.drop_last(), s.src_client, source.last().sequence)
}

/// The messages for a list of source events, in the order of the events: one
/// for each packet with a verdict. A packet is relayed once: where several
/// events report the sending of one sequence number, the first counts.
pub open spec fn correlated(source: Seq<IbcEvent>, s: Setting) -> Seq<PacketMsgView>
    decreases source.len(),
{
    if source.len() == 0 {
        Seq::empty()
    } else {
        let before = correlated(source.drop_last(), s);
        if repeats(source, s) {
            before
        } else {
            match verdict(source.last(), s) {
                None => before,
                Some(action) => before.push(message_for(source.last(), action, s)),
            }
        }
    }
}

/// The messages that relay every considered packet, each once, with one and
/// the same action.
pub open spec fn all_relayed_as(source: Seq<IbcEvent>, s: Setting, action: PacketAction) -> Seq<
    PacketMsgView,
>
    decreases source.len(),
{
    if source.len() == 0 {
        Seq::empty()
    } else {
        let before = all_relayed_as(source.drop_last(), s, action);
        if considered(source.last(), s) && !repeats(source, s) {
            before.push(message_for(source.last(), action, s))
        } else {
            before
        }
    }
}

/// A sequence number hinted for the destination occurs among the fetched
/// events: in an event of the destination client, or as a send of the source
/// client, whose packet the destination may not have seen yet.
pub open spec fn destination_hint_found(source: Seq<IbcEvent>, s: Setting, hint: u64) -> bool {
    mentioned(s.destination, s.dst_client, hint) || sent(source, s.src_client, hint)
}

/// Every hinted sequence number occurs among the fetched events: a source
/// hint as a send of the source client, a destination hint as
/// [`destination_hint_found`] says.
pub open spec fn hints_found(source: Seq<IbcEvent>, s: Setting) -> bool {
    &&& forall|k: int|
        0 <= k < s.src_hints.len() ==> sent(source, s.src_client, #[trigger] s.src_hints[k])
    &&& forall|k: int|
        0 <= k < s.dst_hints.len() ==> destination_hint_found(source, s, #[trigger] s.dst_hints[k])
}

/// What [`relay_events`] answers.
pub open spec fn relay_outcome(source: Seq<IbcEvent>, s: Setting) -> Result<
    Seq<PacketMsgView>,
    RelayError,
> {
    if !hints_found(source, s) {
        Err(RelayError::UnknownSequence)
    } else if correlated(source, s).len() == 0 {
        Err(RelayError::NoRelayablePackets)
    } else {
        Ok(correlated(source, s))
    }
}

/// The packets to relay, in the order of the source events.
#[derive(Debug)]
pub struct RelayPlan {
    pub messages: Vec<PacketMsg>,
}

fn every_source_hint_sent(source: &Vec<IbcEvent>, client: &String, hints: &Vec<u64>) -> (r: bool)
    ensures
        r == forall|k: int| 0 <= k < hints@.len() ==> sent(source@, client@, #[trigger] hints@[k]),
{
    let mut k: usize = 0;
    while k < hints.len()
        invariant
            k <= hints.len(),
            forall|j: int| 0 <= j < k ==> sent(source@, client@, #[trigger] hints@[j]),
        decreases hints.len() - k,
    {
        if !was_sent(source, client, hints[k]) {
            return false;
        }
        k += 1;
    }
    true
}

fn every_destination_hint_found(
    source: &Vec<IbcEvent>,
    destination: &Vec<IbcEvent>,
    src_client: &String,
    dst_client: &String,
    hints: &Vec<u64>,
) -> (r: bool)
    ensures
        r == forall|k: int|
            0 <= k < hints@.len() ==> (mentioned(destination@, dst_client@, #[trigger] hints@[k])
                || sent(source@, src_client@, hints@[k])),
{
    let mut k: usize = 0;
    while k < hints.len()
        invariant
            k <= hints.len(),
            forall|j: int|
                0 <= j < k ==> (mentioned(destination@, dst_client@, #[trigger] hints@[j]) || sent(
                    source@,
                    src_client@,
                    hints@[j],
                )),
        decreases hints.len() - k,
    {
        if !was_mentioned(destination, dst_client, hints[k]) && !was_sent(
            source,
            src_client,
            hints[k],
        ) {
            return false;
        }
        k += 1;
    }
    true
}

/// Tests whether one of the first `upto` events reports that `client` sent
/// packet `sequence`.
fn sent_before(events: &Vec<IbcEvent>, upto: usize, client: &String, sequence: u64) -> (r: bool)
    requires
        upto <= events.len(),
    ensures
        r == sent(events@.take(upto as int), client@, sequence),
{
    let mut j: usize = 0;
    while j < upto
        invariant
            j <= upto <= events.len(),
            forall|m: int|
                0 <= m < j ==> !crate::events::is_send(#[trigger] events@[m], client@, sequence),
        decreases upto - j,
    {
        let e = &events[j];
        if e.kind == EventKind::PacketSend && e.sequence == sequence && e.client_id == *client {
            assert(events@.take(upto as int)[j as int] == events@[j as int]);
            return true;
        }
        j += 1;
    }
    false
}

/// Correlates the events of the two chains. The plan holds one message for
/// every packet that the source client sent, that the hints admit and that
/// the destination has neither received nor acknowledged: a timeout where the
/// destination reports the packet's timeout, a receive otherwise. Each packet
/// has one message, whatever the number of events that report its sending.
///
/// Fails with `UnknownSequence` where a hint names a sequence number that the
/// fetched events lack, and with `NoRelayablePackets` where nothing is left
/// to relay.
pub fn relay_events(
    src_events: Vec<IbcEvent>,
    dst_events: Vec<IbcEvent>,
    src_client_id: String,
    dst_client_id: String,
    src_seqs: Vec<u64>,
    dst_seqs: Vec<u64>,
) -> (r: Result<RelayPlan, RelayError>)
    ensures
        match relay_outcome(
            src_events@,
            Setting {
                destination: dst_events@,
                src_client: src_client_id@,
                dst_client: dst_client_id@,
                src_hints: src_seqs@,
                dst_hints: dst_seqs@,
            },
        ) {
            Ok(messages) => r matches Ok(plan) && message_views(plan.messages@) == messages,
            Err(e) => r == Err::<RelayPlan, RelayError>(e),
        },
{
    let ghost s = Setting {
        destination: dst_events@,
        src_client: src_client_id@,
        dst_client: dst_client_id@,
        src_hints: src_seqs@,
        dst_hints: dst_seqs@,
    };
    if !every_source_hint_sent(&src_events, &src_client_id, &src_seqs) {
        return Err(RelayError::UnknownSequence);
    }
    if !every_destination_hint_found(
        &src_events,
        &dst_events,
        &src_client_id,
        &dst_client_id,
        &dst_seqs,
    ) {
        proof {
            let k = choose|k: int|
                0 <= k < dst_seqs@.len() && !(mentioned(
                    dst_events@,
                    dst_client_id@,
                    #[trigger] dst_seqs@[k],
                ) || sent(src_events@, src_client_id@, dst_seqs@[k]));
            assert(!destination_hint_found(src_events@, s, s.dst_hints[k]));
        }
        return Err(RelayError::UnknownSequence);
    }
    let mut messages: Vec<PacketMsg> = Vec::new();
    let mut i: usize = 0;
    while i < src_events.len()
        invariant
            i <= src_events.len(),
            s == (Setting {
                destination: dst_events@,
                src_client: src_client_id@,
                dst_client: dst_client_id@,
                src_hints: src_seqs@,
                dst_hints: dst_seqs@,
            }),
            message_views(messages@) == correlated(src_events@.take(i as int), s),
        decreases src_events.len() - i,
    {
        let e = &src_events[i];
        assert(src_events@.take(i + 1).drop_last() =~= src_events@.take(i as int));
        let is_considered = e.kind == EventKind::PacketSend && e.client_id == src_client_id
            && is_admitted(&src_seqs, e.sequence);
        if is_considered && !was_sighted(&dst_events, &dst_client_id, &dst_seqs, e.sequence, false)
            && !sent_before(&src_events, i, &src_client_id, e.sequence) {
            let action = if was_sighted(&dst_events, &dst_client_id, &dst_seqs, e.sequence, true) {
                PacketAction::Timeout
            } else {
                PacketAction::Receive
            };
            let message = PacketMsg {
                action,
                src_client: src_client_id.clone(),
                dst_client: dst_client_id.clone(),
                sequence: e.sequence,
                payload: copy_bytes(e.raw_payload.as_slice()),
            };
            messages.push(message);
        }
        i += 1;
    }
    assert(src_events@.take(src_events.len() as int) =~= src_events@);
    if messages.len() == 0 {
        return Err(RelayError::NoRelayablePackets);
    }
    Ok(RelayPlan { messages })
}

/// The byte that marks a packet commitment in a state key.
pub const COMMITMENT_TAG: u8 = 1;

/// The byte that marks a packet receipt in a state key.
pub const RECEIPT_TAG: u8 = 2;

/// The state key of a packet: the client identifier's bytes, the tag, and
/// the sequence number in eight bytes, most significant first.
pub open spec fn state_key(client: Seq<char>, tag: u8, sequence: u64) -> Seq<u8> {
    encode_utf8(client) + seq![tag] + be_bytes(sequence)
}

/// The key path whose proof a message needs: for a receive, the packet's
/// commitment under the source client; for a timeout, the packet's receipt
/// under the destination client.
pub open spec fn path_for(m: PacketMsgView) -> Seq<Seq<u8>> {
    match m.action {
        PacketAction::Receive => seq![
            default_store(),
            state_key(m.src_client, COMMITMENT_TAG, m.sequence),
        ],
        PacketAction::Timeout => seq![
            default_store(),
            state_key(m.dst_client, RECEIPT_TAG, m.sequence),
        ],
    }
}

/// The key paths of a list of messages, one for each, in order.
pub open spec fn paths_for(messages: Seq<PacketMsgView>) -> Seq<Seq<Seq<u8>>> {
    Seq::new(messages.len(), |i: int| path_for(messages[i]))
}

fn packet_key(client: &String, tag: u8, sequence: u64) -> (r: Vec<u8>)
    ensures
        r@ == state_key(client@, tag, sequence),
{
    let mut key = client.as_str().as_bytes_vec();
    key.push(tag);
    let number = u64_be_bytes(sequence);
    append_bytes(&mut key, number.as_slice());
    key
}

/// The key path whose proof the message needs.
pub fn key_path_for(message: &PacketMsg) -> (r: Vec<Vec<u8>>)
    ensures
        segments(r@) == path_for(message@),
        r.len() == 2,
{
    let mut store: Vec<u8> = Vec::new();
    store.push(0x69u8);
    store.push(0x62u8);
    store.push(0x63u8);
    assert(store@ =~= default_store());
    let key = match message.action {
        PacketAction::Receive => packet_key(&message.src_client, COMMITMENT_TAG, message.sequence),
        PacketAction::Timeout => packet_key(&message.dst_client, RECEIPT_TAG, message.sequence),
    };
    let mut path: Vec<Vec<u8>> = Vec::new();
    path.push(store);
    path.push(key);
    path
}

impl RelayPlan {
    /// The key paths to fetch proofs for: one for each message, in order, each
    /// of two segments.
    pub fn key_paths(&self) -> (r: Vec<Vec<Vec<u8>>>)
        ensures
            segment_lists(r@) == paths_for(message_views(self.messages@)),
            r.len() == self.messages.len(),
            all_binary(segment_lists(r@)),
    {
        let mut out: Vec<Vec<Vec<u8>>> = Vec::new();
        let mut i: usize = 0;
        while i < self.messages.len()
            invariant
                i <= self.messages.len(),
                out.len() == i,
                forall|j: int|
                    0 <= j < i ==> segments((#[trigger] out@[j])@) == path_for(self.messages@[j]@),
            decreases self.messages.len() - i,
        {
            out.push(key_path_for(&self.messages[i]));
            i += 1;
        }
        out
    }
}

/// The light-client update that a relay transaction carries.
#[derive(Debug)]
pub struct ClientUpdateMsg {
    pub client_id: String,
    pub target: Height,
}

/// An unsigned transaction for the destination chain: the packet messages,
/// the proof they rest on, at most one client update, and the address that
/// will sign.
#[derive(Debug)]
pub struct RelayTx {
    pub client_update: Option<ClientUpdateMsg>,
    pub packets: Vec<PacketMsg>,
    pub proof: ProofArtifact,
    pub proof_height: Height,
    pub signer: String,
}

/// Builds the one transaction that carries all messages of the plan and the
/// proof. It carries a client update exactly when the proof was made by the
/// combined circuit; a circuit that proves no membership is refused.
pub fn assemble_relay_tx(
    plan: RelayPlan,
    program: ProofProgram,
    artifact: ProofArtifact,
    dst_client_id: String,
    proof_height: Height,
    signer: String,
) -> (r: Result<RelayTx, RelayError>)
    ensures
        program.proves_membership() ==> (r matches Ok(tx) && tx.packets == plan.messages && tx.proof
            == artifact && tx.proof_height == proof_height && tx.signer == signer && (
        tx.client_update is Some <==> program == ProofProgram::UpdateClientAndMembership) && (
        tx.client_update matches Some(update) ==> update.client_id == dst_client_id && update.target
            == proof_height)),
        !program.proves_membership() ==> r == Err::<RelayTx, RelayError>(
            RelayError::ProgramMismatch,
        ),
{
    let client_update = match program {
        ProofProgram::Membership => None,
        ProofProgram::UpdateClientAndMembership => Some(
            ClientUpdateMsg { client_id: dst_client_id, target: proof_height },
        ),
        _ => {
            return Err(RelayError::ProgramMismatch);
        },
    };
    Ok(RelayTx { client_update, packets: plan.messages, proof: artifact, proof_height, signer })
}

/// A relay transaction carries a client update only where the heights ask
/// for one: the circuit chosen for a request with key paths proves
/// membership, and it is the combined one exactly when the trusted height
/// lies strictly before the height of the proof.
pub proof fn update_only_where_heights_ask(trusted: Height, proof_height: Height)
    ensures
        selected(update_needed(trusted, proof_height), true) matches Ok(program)
            && program.proves_membership() && (program == ProofProgram::UpdateClientAndMembership
            <==> trusted.precedes(proof_height)),
        selected(update_needed(trusted, proof_height), true) != Err::<ProofProgram, SelectError>(
            SelectError::NothingToProve,
        ),
{
}

/// If every considered source event has one and the same verdict, the
/// messages are those that relay every considered packet with that action.
pub proof fn uniform_verdict(source: Seq<IbcEvent>, s: Setting, action: PacketAction)
    requires
        forall|i: int|
            0 <= i < source.len() && considered(#[trigger] source[i], s) ==> verdict(source[i], s)
                == Some(action),
    ensures
        correlated(source, s) == all_relayed_as(source, s, action),
    decreases source.len(),
{
    if source.len() > 0 {
        let front = source.drop_last();
        uniform_verdict(front, s, action);
    }
}

/// Every message of [`all_relayed_as`] has the given action.
pub proof fn all_relayed_as_action(source: Seq<IbcEvent>, s: Setting, action: PacketAction)
    ensures
        forall|k: int|
            0 <= k < all_relayed_as(source, s, action).len() ==> (#[trigger] all_relayed_as(
                source,
                s,
                action,
            )[k]).action == action,
    decreases source.len(),
{
    if source.len() > 0 {
        all_relayed_as_action(source.drop_last(), s, action);
    }
}

/// Every message relays a packet that the source client sent and that the
/// destination has not received; it is a timeout exactly when the packet
/// lies in the timeout window.
pub proof fn correlated_sound(source: Seq<IbcEvent>, s: Setting)
    ensures
        forall|k: int|
            0 <= k < correlated(source, s).len() ==> {
                let m = #[trigger] correlated(source, s)[k];
                &&& sent(source, s.src_client, m.sequence)
                &&& admitted(s.src_hints, m.sequence)
                &&& !delivered(s.destination, s.dst_client, s.dst_hints, m.sequence)
                &&& (m.action == PacketAction::Timeout <==> in_timeout_window(
                    s.destination,
                    s.dst_client,
                    s.dst_hints,
                    m.sequence,
                ))
                &&& m.src_client == s.src_client
                &&& m.dst_client == s.dst_client
            },
    decreases source.len(),
{
    if source.len() > 0 {
        let front = source.drop_last();
        correlated_sound(front, s);
        assert forall|k: int| 0 <= k < correlated(source, s).len() implies {
            let m = #[trigger] correlated(source, s)[k];
            &&& sent(source, s.src_client, m.sequence)
            &&& admitted(s.src_hints, m.sequence)
            &&& !delivered(s.destination, s.dst_client, s.dst_hints, m.sequence)
            &&& (m.action == PacketAction::Timeout <==> in_timeout_window(
                s.destination,
                s.dst_client,
                s.dst_hints,
                m.sequence,
            ))
            &&& m.src_client == s.src_client
            &&& m.dst_client == s.dst_client
        } by {
            if k >= correlated(front, s).len() {
                assert(crate::events::is_send(
                    source[source.len() - 1],
                    s.src_client,
                    correlated(source, s)[k].sequence,
                ));
            }
        }
    }
}

/// No packet is relayed twice: the messages have pairwise different sequence
/// numbers.
pub proof fn correlated_distinct(source: Seq<IbcEvent>, s: Setting)
    ensures
        forall|k1: int, k2: int|
            0 <= k1 < k2 < correlated(source, s).len() ==> (#[trigger] correlated(
                source,
                s,
            )[k1]).sequence != (#[trigger] correlated(source, s)[k2]).sequence,
    decreases source.len(),
{
    if source.len() > 0 {
        let front = source.drop_last();
        correlated_distinct(front, s);
        correlated_sound(front, s);
    }
}

/// No relayable packet is left out: for every source event with a verdict
/// there is a message with its sequence number and the verdict's action.
pub proof fn correlated_complete(source: Seq<IbcEvent>, s: Setting, i: int)
    requires
        0 <= i < source.len(),
        verdict(source[i], s) is Some,
    ensures
        exists|k: int|
            0 <= k < correlated(source, s).len() && (#[trigger] correlated(source, s)[k]).sequence
                == source[i].sequence && correlated(source, s)[k].action == verdict(
                source[i],
                s,
            )->0,
    decreases source.len(),
{
    let front = source.drop_last();
    let wanted = source[i].sequence;
    let action = verdict(source[i], s)->0;
    if i < source.len() - 1 {
        correlated_complete(front, s, i);
        let k = choose|k: int|
            0 <= k < correlated(front, s).len() && (#[trigger] correlated(front, s)[k]).sequence
                == wanted && correlated(front, s)[k].action == action;
        assert(correlated(source, s)[k] == correlated(front, s)[k]);
    } else if repeats(source, s) {
        let j = choose|j: int|
            0 <= j < front.len() && crate::events::is_send(#[trigger] front[j], s.src_client, wanted);
        correlated_complete(front, s, j);
    } else {
        let k = correlated(front, s).len() as int;
        assert(correlated(source, s)[k] == message_for(source[i], action, s));
    }
}

/// Where no considered packet has been received or acknowledged by the
/// destination and every one lies in the timeout window, the messages are
/// exactly the timeouts of the considered packets, one for each sequence
/// number.
pub proof fn undelivered_in_window_are_timeouts(source: Seq<IbcEvent>, s: Setting)
    requires
        forall|i: int|
            0 <= i < source.len() && considered(#[trigger] source[i], s) ==> !delivered(
                s.destination,
                s.dst_client,
                s.dst_hints,
                source[i].sequence,
            ) && in_timeout_window(s.destination, s.dst_client, s.dst_hints, source[i].sequence),
    ensures
        correlated(source, s) == all_relayed_as(source, s, PacketAction::Timeout),
        forall|k: int|
            0 <= k < correlated(source, s).len() ==> (#[trigger] correlated(source, s)[k]).action
                == PacketAction::Timeout,
        forall|k1: int, k2: int|
            0 <= k1 < k2 < correlated(source, s).len() ==> (#[trigger] correlated(
                source,
                s,
            )[k1]).sequence != (#[trigger] correlated(source, s)[k2]).sequence,
        forall|i: int|
            0 <= i < source.len() && considered(#[trigger] source[i], s) ==> exists|k: int|
                0 <= k < correlated(source, s).len() && (#[trigger] correlated(
                    source,
                    s,
                )[k]).sequence == source[i].sequence,
{
    uniform_verdict(source, s, PacketAction::Timeout);
    all_relayed_as_action(source, s, PacketAction::Timeout);
    correlated_distinct(source, s);
    assert forall|i: int| 0 <= i < source.len() && considered(#[trigger] source[i], s) implies exists|
        k: int,
    |
        0 <= k < correlated(source, s).len() && (#[trigger] correlated(source, s)[k]).sequence
            == source[i].sequence by {
        correlated_complete(source, s, i);
    }
}

/// The answer to a request whose hints are found, under the same conditions:
/// with at least one considered send, the plan is exactly the timeouts.
pub proof fn relay_of_timeouts(source: Seq<IbcEvent>, s: Setting, i: int)
    requires
        hints_found(source, s),
        0 <= i < source.len(),
        considered(source[i], s),
        forall|j: int|
            0 <= j < source.len() && considered(#[trigger] source[j], s) ==> !delivered(
                s.destination,
                s.dst_client,
                s.dst_hints,
                source[j].sequence,
            ) && in_timeout_window(s.destination, s.dst_client, s.dst_hints, source[j].sequence),
    ensures
        relay_outcome(source, s) == Ok::<Seq<PacketMsgView>, RelayError>(
            all_relayed_as(source, s, PacketAction::Timeout),
        ),
{
    undelivered_in_window_are_timeouts(source, s);
    correlated_complete(source, s, i);
}

/// Three packets sent, the first of them received or acknowledged by the
/// destination, none timed out, and hints that admit all three: the plan is
/// the receive of the second and the receive of the third, and the key paths
/// to fetch are the commitments of those two.
pub proof fn sent_three_delivered_one(
    first: IbcEvent,
    second: IbcEvent,
    third: IbcEvent,
    receipt: IbcEvent,
    s: Setting,
)
    requires
        considered(first, s),
        considered(second, s),
        considered(third, s),
        first.sequence != second.sequence,
        first.sequence != third.sequence,
        second.sequence != third.sequence,
        s.destination == seq![receipt],
        crate::events::is_sighting(receipt, s.dst_client, first.sequence, false),
        admitted(s.dst_hints, first.sequence),
        hints_found(seq![first, second, third], s),
    ensures
        relay_outcome(seq![first, second, third], s) == Ok::<Seq<PacketMsgView>, RelayError>(
            seq![
                message_for(second, PacketAction::Receive, s),
                message_for(third, PacketAction::Receive, s),
            ],
        ),
        paths_for(
            seq![
                message_for(second, PacketAction::Receive, s),
                message_for(third, PacketAction::Receive, s),
            ],
        ) == seq![
            seq![default_store(), state_key(s.src_client, COMMITMENT_TAG, second.sequence)],
            seq![default_store(), state_key(s.src_client, COMMITMENT_TAG, third.sequence)],
        ],
{
    let source = seq![first, second, third];
    let two = source.drop_last();
    let one = two.drop_last();
    assert(s.destination[0] == receipt);
    assert(correlated(one.drop_last(), s) =~= Seq::<PacketMsgView>::empty());
    assert(correlated(one, s) =~= Seq::<PacketMsgView>::empty());
    assert(correlated(two, s) =~= seq![message_for(second, PacketAction::Receive, s)]);
    assert(correlated(source, s) =~= seq![
        message_for(second, PacketAction::Receive, s),
        message_for(third, PacketAction::Receive, s),
    ]);
    assert(paths_for(
        seq![
            message_for(second, PacketAction::Receive, s),
            message_for(third, PacketAction::Receive, s),
        ],
    ) =~= seq![
        seq![default_store(), state_key(s.src_client, COMMITMENT_TAG, second.sequence)],
        seq![default_store(), state_key(s.src_client, COMMITMENT_TAG, third.sequence)],
    ]);
}

} // verus!
