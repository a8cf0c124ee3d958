//! Packet events as the two chains report them, and what they say of a
//! packet: sent, delivered, timed out.

use vstd::prelude::*;
use crate::height::Height;

verus! {

/// The kinds of packet event.
#[derive(Clone, Copy, Debug, PartialEq, Eq, Structural, Hash)]
pub enum EventKind {
    PacketSend,
    PacketReceive,
    PacketAcknowledge,
    PacketTimeout,
}

/// One packet event: its kind, the client it went through, the packet's
/// sequence number, the height at which it was seen, and the packet as the
/// chain recorded it.
#[derive(Debug)]
pub struct IbcEvent {
    pub kind: EventKind,
    pub client_id: String,
    pub sequence: u64,
    pub height: Height,
    pub raw_payload: Vec<u8>,
}

/// A list of sequence numbers given as a hint admits a sequence number when
/// the list is empty or holds it.
pub open spec fn admitted(hints: Seq<u64>, sequence: u64) -> bool {
    hints.len() == 0 || hints.contains(sequence)
}

/// The event reports that `client` sent packet `sequence`.
pub open spec fn is_send(e: IbcEvent, client: Seq<char>, sequence: u64) -> bool {
    e.kind == EventKind::PacketSend && e.client_id@ == client && e.sequence == sequence
}

/// The event reports, for `client`, that packet `sequence` arrived (it was
/// received or acknowledged) or, with `timeout` set, that it timed out.
pub open spec fn is_sighting(e: IbcEvent, client: Seq<char>, sequence: u64, timeout: bool) -> bool {
    &&& e.client_id@ == client
    &&& e.sequence == sequence
    &&& if timeout {
        e.kind == EventKind::PacketTimeout
    } else {
        e.kind == EventKind::PacketReceive || e.kind == EventKind::PacketAcknowledge
    }
}

/// Some event of the list is such a sighting, and the hints admit the
/// sequence number.
pub open spec fn sighted(
    events: Seq<IbcEvent>,
    client: Seq<char>,
    hints: Seq<u64>,
    sequence: u64,
    timeout: bool,
) -> bool {
    admitted(hints, sequence) && exists|j: int|
        0 <= j < events.len() && is_sighting(#[trigger] events[j], client, sequence, timeout)
}

/// The destination has received or acknowledged the packet.
pub open spec fn delivered(
    events: Seq<IbcEvent>,
    client: Seq<char>,
    hints: Seq<u64>,
    sequence: u64,
) -> bool {
    sighted(events, client, hints, sequence, false)
}

/// The packet lies in the timeout window: the destination reports its
/// timeout.
pub open spec fn in_timeout_window(
    events: Seq<IbcEvent>,
    client: Seq<char>,
    hints: Seq<u64>,
    sequence: u64,
) -> bool {
    sighted(events, client, hints, sequence, true)
}

/// Some event of the list reports that `client` sent packet `sequence`.
pub open spec fn sent(events: Seq<IbcEvent>, client: Seq<char>, sequence: u64) -> bool {
    exists|j: int| 0 <= j < events.len() && is_send(#[trigger] events[j], client, sequence)
}

/// Some event of the list, of whatever kind, is about packet `sequence` of
/// `client`.
pub open spec fn mentioned(events: Seq<IbcEvent>, client: Seq<char>, sequence: u64) -> bool {
    exists|j: int|
        0 <= j < events.len() && (#[trigger] events[j]).client_id@ == client && events[j].sequence
            == sequence
}

pub fn contains_sequence(list: &Vec<u64>, sequence: u64) -> (r: bool)
    ensures
        r == list@.contains(sequence),
{
    let mut i: usize = 0;
    while i < list.len()
        invariant
            i <= list.len(),
            forall|j: int| 0 <= j < i ==> list@[j] != sequence,
        decreases list.len() - i,
    {
        if list[i] == sequence {
            return true;
        }
        i += 1;
    }
    false
}

pub fn is_admitted(hints: &Vec<u64>, sequence: u64) -> (r: bool)
    ensures
        r == admitted(hints@, sequence),
{
    hints.len() == 0 || contains_sequence(hints, sequence)
}

pub fn was_sighted(
    events: &Vec<IbcEvent>,
    client: &String,
    hints: &Vec<u64>,
    sequence: u64,
    timeout: bool,
) -> (r: bool)
    ensures
        r == sighted(events@, client@, hints@, sequence, timeout),
{
    if !is_admitted(hints, sequence) {
        return false;
    }
    let mut i: usize = 0;
    while i < events.len()
        invariant
            i <= events.len(),
            admitted(hints@, sequence),
            forall|j: int|
                0 <= j < i ==> !is_sighting(#[trigger] events@[j], client@, sequence, timeout),
        decreases events.len() - i,
    {
        let e = &events[i];
        let kind_fits = if timeout {
            e.kind == EventKind::PacketTimeout
        } else {
            e.kind == EventKind::PacketReceive || e.kind == EventKind::PacketAcknowledge
        };
        if kind_fits && e.sequence == sequence && e.client_id == *client {
            return true;
        }
        i += 1;
    }
    false
}

pub fn was_sent(events: &Vec<IbcEvent>, client: &String, sequence: u64) -> (r: bool)
    ensures
        r == sent(events@, client@, sequence),
{
    let mut i: usize = 0;
    while i < events.len()
        invariant
            i <= events.len(),
            forall|j: int| 0 <= j < i ==> !is_send(#[trigger] events@[j], client@, sequence),
        decreases events.len() - i,
    {
        let e = &events[i];
        if e.kind == EventKind::PacketSend && e.sequence == sequence && e.client_id == *client {
            return true;
        }
        i += 1;
    }
    false
}

pub fn was_mentioned(events: &Vec<IbcEvent>, client: &String, sequence: u64) -> (r: bool)
    ensures
        r == mentioned(events@, client@, sequence),
{
    let mut i: usize = 0;
    while i < events.len()
        invariant
            i <= events.len(),
            forall|j: int|
                0 <= j < i ==> !((#[trigger] events@[j]).client_id@ == client@ && events@[j].sequence
                    == sequence),
        decreases events.len() - i,
    {
        let e = &events[i];
        if e.sequence == sequence && e.client_id == *client {
            return true;
        }
        i += 1;
    }
    false
}

} // verus!
