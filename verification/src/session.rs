//! Session record: the gateway session identifier together with the last
//! sequence number observed on a dispatch.

use vstd::prelude::*;

verus! {

/// A live gateway session: an immutable identifier and the most recent
/// dispatch sequence number.
#[derive(Clone, Debug)]
pub struct Session {
    id: String,
    sequence: u64,
}

impl View for Session {
    type V = (Seq<char>, u64);

    closed spec fn view(&self) -> (Seq<char>, u64) {
        (self.id@, self.sequence)
    }
}

impl Session {
    pub fn new(sequence: u64, session_id: String) -> (r: Self)
        ensures
            r@ == (session_id@, sequence),
    {
        Session { id: session_id, sequence }
    }

    /// The session identifier, as received in the ready event.
    pub fn id(&self) -> (r: &str)
        ensures
            r@ == self@.0,
    {
        self.id.as_str()
    }

    /// The last sequence number observed, for heartbeat and resume
    /// payloads.
    pub fn sequence(&self) -> (r: u64)
        ensures
            r == self@.1,
    {
        self.sequence
    }

    /// Records the sequence number of a dispatch and hands back the value
    /// it replaces. The gateway guarantees its sequence numbers never
    /// decrease within a session; this record stores what it is given.
    pub fn set_sequence(&mut self, sequence: u64) -> (r: u64)
        ensures
            final(self)@ == (old(self)@.0, sequence),
            r == old(self)@.1,
    {
        let previous = self.sequence;
        self.sequence = sequence;
        previous
    }
}

} // verus!
