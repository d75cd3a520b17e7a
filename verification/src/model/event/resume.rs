//! The resume payload: reattaches to an existing session.

use vstd::prelude::*;

verus! {

/// The spec-level value of a resume payload.
#[verifier::ext_equal]
pub struct ResumeV {
    pub seq: u64,
    pub session_id: Seq<char>,
    pub token: Seq<char>,
}

/// The resume payload: session identifier, replay sequence and token.
#[derive(Debug)]
pub struct Resume {
    pub seq: u64,
    pub session_id: String,
    pub token: String,
}

impl View for Resume {
    type V = ResumeV;

    open spec fn view(&self) -> ResumeV {
        ResumeV { seq: self.seq, session_id: self.session_id@, token: self.token@ }
    }
}

} // verus!
