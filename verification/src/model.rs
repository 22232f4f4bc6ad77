//! Wire-agnostic data shapes exchanged across the facade boundary, and
//! the decoding of raw host values into them.

use vstd::prelude::*;

verus! {

/// One inbound application message: an opaque payload, an
/// application-defined tag, and the sender's identifier.
pub struct MatchData {
    pub data: Vec<u8>,
    pub opcode: i32,
    pub user_id: String,
}

/// A membership event: a peer joined or left the match.
#[derive(Debug, PartialEq)]
pub enum Event {
    Join(String),
    Leave(String),
}

/// Everything that can go wrong at the facade boundary. The caller
/// decides whether to abort, retry, or degrade.
#[derive(Debug, PartialEq)]
pub enum NakamaError {
    /// Authentication of the client session did not succeed.
    AuthFailed,
    /// The realtime session did not report itself connected.
    RealtimeConnectFailed,
    /// The host reported a membership event tag outside the contract.
    UnknownEventTag,
}

/// The host's tag for a peer joining the match.
pub const EVENT_TAG_JOIN: i64 = 1;
/// The host's tag for a peer leaving the match.
pub const EVENT_TAG_LEAVE: i64 = 2;

/// Decodes a raw membership event as the host hands it over. Only the
/// two known tags are accepted; anything else is a contract violation
/// of the host boundary and is rejected deterministically.
pub fn event_from_tag(tag: i64, user_id: String) -> (r: Result<Event, NakamaError>)
    ensures
        tag == EVENT_TAG_JOIN ==> r == Ok::<Event, NakamaError>(Event::Join(user_id)),
        tag == EVENT_TAG_LEAVE ==> r == Ok::<Event, NakamaError>(Event::Leave(user_id)),
        tag != EVENT_TAG_JOIN && tag != EVENT_TAG_LEAVE
            ==> r == Err::<Event, NakamaError>(NakamaError::UnknownEventTag),
        r matches Ok(e) ==> (e is Join || e is Leave),
{
    match tag {
        1i64 => Ok(Event::Join(user_id)),
        2i64 => Ok(Event::Leave(user_id)),
        _ => Err(NakamaError::UnknownEventTag),
    }
}

impl MatchData {
    /// Builds one inbound message from the raw values the host handed
    /// over; pure data, nothing is changed on the way through.
    pub fn new(opcode: i32, data: Vec<u8>, user_id: String) -> (r: MatchData)
        ensures
            r.opcode == opcode,
            r.data@ == data@,
            r.user_id@ == user_id@,
    {
        MatchData { data, opcode, user_id }
    }
}

} // verus!
