//! The continuity tracker: the last accepted sequence number of a session and
//! the verdict on each classified message.

use crate::packet::Packet;
use vstd::prelude::*;

verus! {

/// The continuity state of one session.
#[derive(Debug, Clone, Copy, PartialEq, Eq, Structural)]
pub enum Continuity {
    /// No message has been accepted in this session yet.
    Uninitialized,
    /// The sequence number of the last accepted message.
    Tracking(u64),
}

/// The successor of a sequence number, wrapping at the top of the range.
pub open spec fn successor(seq: u64) -> u64 {
    if seq == u64::MAX {
        0
    } else {
        (seq + 1) as u64
    }
}

impl Continuity {
    /// Whether a packet is accepted in this state.
    pub open spec fn accepts(self, packet: Packet) -> bool {
        match (packet, self) {
            (Packet::Reconnect, _) => false,
            (_, Continuity::Uninitialized) => true,
            (Packet::HeartBeat(seq), Continuity::Tracking(last)) => seq == last,
            (Packet::Next(seq), Continuity::Tracking(last)) => seq == successor(last),
        }
    }

    /// The state after a packet was offered: an accepted packet's sequence
    /// number becomes the last one, a rejected packet changes nothing.
    pub open spec fn after(self, packet: Packet) -> Continuity {
        match packet.sequence() {
            Some(seq) if self.accepts(packet) => Continuity::Tracking(seq),
            _ => self,
        }
    }

    /// The state at the start of every session.
    pub fn new() -> (state: Continuity)
        ensures
            state == Continuity::Uninitialized,
    {
        Continuity::Uninitialized
    }

    /// Whether a message has been accepted in this session.
    pub fn initialized(&self) -> (yes: bool)
        ensures
            yes == (*self is Tracking),
    {
        match self {
            Continuity::Uninitialized => false,
            Continuity::Tracking(_) => true,
        }
    }

    /// The sequence number of the last accepted message, and zero before the
    /// first.
    pub fn last_sequence(&self) -> (last: u64)
        ensures
            last == (match *self {
                Continuity::Uninitialized => 0,
                Continuity::Tracking(seq) => seq,
            }),
    {
        match self {
            Continuity::Uninitialized => 0,
            Continuity::Tracking(seq) => *seq,
        }
    }
}

} // verus!
