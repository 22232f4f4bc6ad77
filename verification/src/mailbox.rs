//! The inbound queue: raw (opcode, payload) pairs appended as the host
//! session is ticked and drained most-recently-added-first by the
//! polling calls.

use vstd::prelude::*;

verus! {

/// One raw queue entry: the application-defined tag and the opaque
/// payload bytes, as they cross the host boundary.
pub struct RawMessage {
    pub opcode: i32,
    pub data: Vec<u8>,
}

impl RawMessage {
    /// What a raw entry is mathematically: its opcode and its bytes.
    pub open spec fn view(self) -> (int, Seq<u8>) {
        (self.opcode as int, self.data@)
    }
}

/// The buffer of not-yet-delivered inbound messages. Entries are
/// appended at the back and drained from the back: the most recently
/// queued entry is handed out first, and no ordering guarantee with
/// respect to arrival order is otherwise provided.
pub struct Mailbox {
    entries: Vec<RawMessage>,
}

impl Mailbox {
    /// The queued entries, oldest first; draining takes the last one.
    pub closed spec fn view(self) -> Seq<(int, Seq<u8>)> {
        self.entries@.map(|i: int, m: RawMessage| m@)
    }

    /// A fresh, empty mailbox.
    pub fn new() -> (r: Mailbox)
        ensures
            r@ =~= Seq::<(int, Seq<u8>)>::empty(),
    {
        Mailbox { entries: Vec::new() }
    }

    /// How many entries are waiting.
    pub fn len(&self) -> (r: usize)
        ensures
            r == self@.len(),
    {
        self.entries.len()
    }

    /// Queues one raw message behind all the others.
    pub fn push(&mut self, opcode: i32, data: Vec<u8>)
        ensures
            final(self)@ =~= old(self)@.push((opcode as int, data@)),
    {
        self.entries.push(RawMessage { opcode, data });
    }

    /// Hands out the most recently queued entry, or nothing when the
    /// queue is empty; it never fails and it never picks another entry.
    pub fn pop(&mut self) -> (r: Option<RawMessage>)
        ensures
            old(self)@.len() == 0 ==> r is None && final(self)@ =~= old(self)@,
            old(self)@.len() > 0 ==> (r matches Some(m)
                && m@ == old(self)@.last()
                && final(self)@ =~= old(self)@.drop_last()),
    {
        self.entries.pop()
    }
}

} // verus!
