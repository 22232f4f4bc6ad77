//! The orchestrated stub backend: a client that owns its session
//! state, drives the connect handshake from observations the driver
//! gathered, buffers inbound traffic until the caller drains it, and
//! queues outbound messages for the driver to dispatch.
//!
//! The caller owns the client and passes it into every operation; a
//! driver performs the host actions (`next_action`) and feeds back what
//! it observed, and hands over what each host tick produced.

use vstd::prelude::*;

use crate::codec::encode_string;
use crate::codec::framed;
use crate::codec::ser_bin_str;
use crate::handshake::HandshakeState;
use crate::handshake::Observation;
use crate::handshake::rank;
use crate::handshake::run_handshake;
use crate::handshake::spec_run;
use crate::mailbox::Mailbox;
use crate::mailbox::RawMessage;
use crate::model::EVENT_TAG_JOIN;
use crate::model::EVENT_TAG_LEAVE;
use crate::model::Event;
use crate::model::MatchData;
use crate::model::NakamaError;
use crate::model::event_from_tag;

verus! {

/// The stateful backend: where the handshake stands, whether the host
/// reports a match, the inbound queue, and the not-yet-dispatched
/// outbound messages.
pub struct StubClient {
    state: HandshakeState,
    in_match: bool,
    inbound: Mailbox,
    outbound: Vec<RawMessage>,
}

impl StubClient {
    /// Where the connect handshake stands.
    pub closed spec fn state_spec(&self) -> HandshakeState {
        self.state
    }

    /// Whether the host has reported match membership.
    pub closed spec fn in_match_spec(&self) -> bool {
        self.in_match
    }

    /// The inbound queue, oldest entry first.
    pub closed spec fn inbox(&self) -> Seq<(int, Seq<u8>)> {
        self.inbound@
    }

    /// The messages waiting to be dispatched, oldest first.
    pub closed spec fn outbox(&self) -> Seq<(int, Seq<u8>)> {
        self.outbound@.map(|i: int, m: RawMessage| m@)
    }

    /// A send goes out only when the host reports a match and the
    /// realtime session handle exists; otherwise it is dropped.
    pub open spec fn can_send(&self) -> bool {
        self.in_match_spec() && rank(self.state_spec()) >= rank(HandshakeState::RealtimeCreated)
    }

    /// A fresh client: disconnected, not in a match, both queues empty.
    pub fn new() -> (r: StubClient)
        ensures
            r.state_spec() == HandshakeState::Disconnected,
            !r.in_match_spec(),
            r.inbox() =~= Seq::<(int, Seq<u8>)>::empty(),
            r.outbox() =~= Seq::<(int, Seq<u8>)>::empty(),
    {
        StubClient {
            state: HandshakeState::Disconnected,
            in_match: false,
            inbound: Mailbox::new(),
            outbound: Vec::new(),
        }
    }

    /// Runs the connect handshake over everything the driver observed,
    /// in order. On success the client stands in the final state the
    /// observations lead to; a failed authentication or realtime
    /// connection ends the run with that error and leaves the client
    /// where it stood before the call.
    pub fn connect(&mut self, observations: &Vec<Observation>) -> (r: Result<(), NakamaError>)
        ensures
            (match spec_run(old(self).state_spec(), observations@) {
                Ok(s) => r == Ok::<(), NakamaError>(()) && final(self).state_spec() == s,
                Err(e) => r == Err::<(), NakamaError>(e) && final(self).state_spec()
                    == old(self).state_spec(),
            }),
            final(self).in_match_spec() == old(self).in_match_spec(),
            final(self).inbox() == old(self).inbox(),
            final(self).outbox() == old(self).outbox(),
    {
        match run_handshake(self.state, observations) {
            Ok(s) => {
                self.state = s;
                Ok(())
            },
            Err(e) => Err(e),
        }
    }

    /// Whether the realtime session reports itself connected.
    pub fn connected(&self) -> (r: bool)
        ensures
            r == (rank(self.state_spec()) >= rank(HandshakeState::RealtimeConnected)),
    {
        match self.state {
            HandshakeState::RealtimeConnected => true,
            HandshakeState::Matchmaking => true,
            _ => false,
        }
    }

    /// The locally-assigned peer identifier of this stub backend.
    pub fn self_id(&self) -> (r: String)
        ensures
            r@ == "self"@,
    {
        "self".to_owned()
    }

    /// Records whether the host reports match membership; the driver
    /// calls this after each tick.
    pub fn set_match_present(&mut self, present: bool)
        ensures
            final(self).in_match_spec() == present,
            final(self).state_spec() == old(self).state_spec(),
            final(self).inbox() == old(self).inbox(),
            final(self).outbox() == old(self).outbox(),
    {
        self.in_match = present;
    }

    /// Takes in what one advance step of the host session produced and
    /// queues it, in order, behind what is already buffered. A tick of
    /// a drained session — nothing produced — introduces no new queued
    /// entries and changes nothing at all.
    pub fn tick(&mut self, incoming: Vec<RawMessage>)
        ensures
            final(self).inbox() =~= old(self).inbox() + incoming@.map(
                |i: int, m: RawMessage| m@,
            ),
            incoming@.len() == 0 ==> final(self).inbox() == old(self).inbox(),
            final(self).state_spec() == old(self).state_spec(),
            final(self).in_match_spec() == old(self).in_match_spec(),
            final(self).outbox() == old(self).outbox(),
    {
        let ghost orig = incoming@;
        let mut rest = incoming;
        while rest.len() > 0
            invariant
                self.inbox() + rest@.map(|i: int, m: RawMessage| m@) =~= old(self).inbox()
                    + orig.map(|i: int, m: RawMessage| m@),
                self.state_spec() == old(self).state_spec(),
                self.in_match_spec() == old(self).in_match_spec(),
                self.outbox() == old(self).outbox(),
            decreases rest@.len(),
        {
            let m = rest.remove(0);
            self.inbound.push(m.opcode, m.data);
        }
    }

    /// Queues one already-encoded message for dispatch with the given
    /// opcode — but only when a match and the realtime handle are
    /// present; otherwise the send is silently dropped, the deliberate
    /// best-effort policy of this backend.
    pub fn send_raw(&mut self, opcode: i32, data: Vec<u8>)
        ensures
            old(self).can_send() ==> final(self).outbox() =~= old(self).outbox().push(
                (opcode as int, data@),
            ),
            !old(self).can_send() ==> final(self).outbox() == old(self).outbox(),
            final(self).state_spec() == old(self).state_spec(),
            final(self).in_match_spec() == old(self).in_match_spec(),
            final(self).inbox() == old(self).inbox(),
    {
        if self.in_match {
            let rt_present = match self.state {
                HandshakeState::RealtimeCreated => true,
                HandshakeState::RealtimeConnected => true,
                HandshakeState::Matchmaking => true,
                _ => false,
            };
            if rt_present {
                self.outbound.push(RawMessage { opcode, data });
            }
        }
    }

    /// Serializes the value and queues it for dispatch with the given
    /// opcode, under `send_raw`'s drop policy. The dispatched payload
    /// is the value's encoding, framed as every encoding is.
    pub fn send_bin(&mut self, opcode: i32, value: &String)
        ensures
            old(self).can_send() ==> final(self).outbox() =~= old(self).outbox().push(
                (opcode as int, ser_bin_str(value@)),
            ),
            !old(self).can_send() ==> final(self).outbox() == old(self).outbox(),
            framed(ser_bin_str(value@)),
            final(self).state_spec() == old(self).state_spec(),
            final(self).in_match_spec() == old(self).in_match_spec(),
            final(self).inbox() == old(self).inbox(),
    {
        let data = encode_string(value);
        self.send_raw(opcode, data);
    }

    /// Hands the queued outbound messages to the driver, oldest first,
    /// and empties the out queue; the driver dispatches them against
    /// the active match.
    pub fn take_outbound(&mut self) -> (r: Vec<RawMessage>)
        ensures
            r@.map(|i: int, m: RawMessage| m@) == old(self).outbox(),
            final(self).outbox() =~= Seq::<(int, Seq<u8>)>::empty(),
            final(self).state_spec() == old(self).state_spec(),
            final(self).in_match_spec() == old(self).in_match_spec(),
            final(self).inbox() == old(self).inbox(),
    {
        let mut taken: Vec<RawMessage> = Vec::new();
        core::mem::swap(&mut self.outbound, &mut taken);
        taken
    }

    /// Drains at most one inbound message: the most recently queued
    /// entry, or nothing — exactly once per empty state — when the
    /// queue is empty. It never fails.
    pub fn try_recv(&mut self) -> (r: Option<MatchData>)
        ensures
            old(self).inbox().len() == 0 ==> r is None && final(self).inbox() == old(self).inbox(),
            old(self).inbox().len() > 0 ==> (r matches Some(md)
                && md.opcode as int == old(self).inbox().last().0
                && md.data@ == old(self).inbox().last().1
                && md.user_id@ == "self"@
                && final(self).inbox() =~= old(self).inbox().drop_last()),
            final(self).state_spec() == old(self).state_spec(),
            final(self).in_match_spec() == old(self).in_match_spec(),
            final(self).outbox() == old(self).outbox(),
    {
        match self.inbound.pop() {
            Some(m) => {
                let user_id = self.self_id();
                Some(MatchData { data: m.data, opcode: m.opcode, user_id })
            },
            None => None,
        }
    }

    /// Drains at most one membership event: the most recently queued
    /// entry decoded by its tag, nothing when the queue is empty, and
    /// an error — never anything else — when the host handed over a tag
    /// outside the contract.
    pub fn events(&mut self) -> (r: Result<Option<Event>, NakamaError>)
        ensures
            old(self).inbox().len() == 0 ==> r == Ok::<Option<Event>, NakamaError>(None)
                && final(self).inbox() == old(self).inbox(),
            old(self).inbox().len() > 0 ==> final(self).inbox() =~= old(self).inbox().drop_last(),
            old(self).inbox().len() > 0 && old(self).inbox().last().0 == EVENT_TAG_JOIN as int
                ==> (r matches Ok(oe) && oe matches Some(e) && e matches Event::Join(u) && u@
                == "tmp_user_id"@),
            old(self).inbox().len() > 0 && old(self).inbox().last().0 == EVENT_TAG_LEAVE as int
                ==> (r matches Ok(oe) && oe matches Some(e) && e matches Event::Leave(u) && u@
                == "tmp_user_id"@),
            old(self).inbox().len() > 0 && old(self).inbox().last().0 != EVENT_TAG_JOIN as int
                && old(self).inbox().last().0 != EVENT_TAG_LEAVE as int ==> r == Err::<
                Option<Event>,
                NakamaError,
            >(NakamaError::UnknownEventTag),
            r matches Ok(Some(e)) ==> (e is Join || e is Leave),
            final(self).state_spec() == old(self).state_spec(),
            final(self).in_match_spec() == old(self).in_match_spec(),
            final(self).outbox() == old(self).outbox(),
    {
        match self.inbound.pop() {
            None => Ok(None),
            Some(m) => {
                let user_id = "tmp_user_id".to_owned();
                match event_from_tag(m.opcode as i64, user_id) {
                    Ok(e) => Ok(Some(e)),
                    Err(e) => Err(e),
                }
            },
        }
    }
}

/// Law: a message dispatched by `send_bin` — the pair of the original
/// opcode and the encoding of the original value — once delivered back
/// into an inbound queue, is exactly what the very next `try_recv`
/// hands out (the drain takes the most recently queued entry), and the
/// queue is afterwards as it was before the delivery. The payload is
/// framed, as `send_bin` states, so `decode_string`'s contract gives
/// the original value back from it.
pub proof fn lemma_send_recv_round_trip(inbox: Seq<(int, Seq<u8>)>, opcode: i32, value: Seq<char>)
    ensures
        inbox.push((opcode as int, ser_bin_str(value))).last() == (
            opcode as int,
            ser_bin_str(value),
        ),
        inbox.push((opcode as int, ser_bin_str(value))).drop_last() =~= inbox,
{
}

} // verus!
